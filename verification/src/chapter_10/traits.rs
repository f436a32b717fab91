use std::fmt::{Debug, Display};
use vstd::prelude::*;
use vstd::string::*;

verus! {

/// Someone who goes by a title.
pub trait PersonTitle {
    /// The title and the name, as a mathematical value.
    spec fn title(&self) -> Seq<char>;

    /// The words of the greeting, as a mathematical value.
    spec fn greeting(&self) -> Seq<char>;

    /// The title and the name.
    fn get_title(&self) -> (title: String)
        ensures
            title@ == self.title(),
    ;

    /// The line with which the person greets.
    fn greet(&self) -> (line: String)
        ensures
            line@ == self.greeting(),
    ;
}

/// The greeting of those who have none of their own.
pub open spec fn plain_greeting(title: Seq<char>) -> Seq<char> {
    "Hello, I am "@ + title + "."@
}

/// Writes the greeting of those who have none of their own.
pub fn plain_greet(title: &str) -> (line: String)
    ensures
        line@ == plain_greeting(title@),
{
    let mut line = "Hello, I am ".to_owned();
    line.append(title);
    line.append(".");
    line
}

fn titled(title: &str, name: &String) -> (full: String)
    ensures
        full@ == title@ + name@,
{
    let mut full: String = title.to_owned();
    full.append(name.as_str());
    full
}

pub struct Civilian {
    pub name: String,
}

impl PersonTitle for Civilian {
    open spec fn title(&self) -> Seq<char> {
        "Mr. "@ + self.name@
    }

    open spec fn greeting(&self) -> Seq<char> {
        plain_greeting(self.title())
    }

    fn get_title(&self) -> (title: String) {
        titled("Mr. ", &self.name)
    }

    fn greet(&self) -> (line: String) {
        plain_greet(self.get_title().as_str())
    }
}

pub struct Doctor {
    pub name: String,
}

impl PersonTitle for Doctor {
    open spec fn title(&self) -> Seq<char> {
        "Dr. "@ + self.name@
    }

    open spec fn greeting(&self) -> Seq<char> {
        "Greetings! They call me "@ + self.title() + "."@
    }

    fn get_title(&self) -> (title: String) {
        titled("Dr. ", &self.name)
    }

    fn greet(&self) -> (line: String) {
        let mut line = "Greetings! They call me ".to_owned();
        line.append(self.get_title().as_str());
        line.append(".");
        line
    }
}

pub struct Soldier {
    pub name: String,
}

impl PersonTitle for Soldier {
    open spec fn title(&self) -> Seq<char> {
        "Private "@ + self.name@
    }

    open spec fn greeting(&self) -> Seq<char> {
        plain_greeting(self.title())
    }

    fn get_title(&self) -> (title: String) {
        titled("Private ", &self.name)
    }

    fn greet(&self) -> (line: String) {
        plain_greet(self.get_title().as_str())
    }
}

/// Forty-two, whatever it is given.
pub fn some_function<T, U>(t: &T, u: &U) -> (answer: i32) where
    T: Display + Clone,
    U: Clone + Debug,

    ensures
        answer == 42,
{
    42
}

} // verus!

verus! {

/// The greetings of a civilian, a doctor and a soldier, and what
/// `some_function` makes of a text and a list.
pub fn run() -> (shown: (String, String, String, i32))
    ensures
        shown.0@ == "Hello, I am Mr. D-Pad."@,
        shown.1@ == "Greetings! They call me Dr. Sneed."@,
        shown.2@ == "Hello, I am Private Pile."@,
        shown.3 == 42,
{
    let person: Civilian = Civilian { name: "D-Pad".to_owned() };
    let doc: Doctor = Doctor { name: "Sneed".to_owned() };
    let soldier: Soldier = Soldier { name: "Pile".to_owned() };
    let first = person.greet();
    let second = doc.greet();
    let third = soldier.greet();
    let t = "Testing".to_owned();
    let u: Vec<[i32; 3]> = vec![[1, 2, 3]];
    let answer = some_function(&t, &u);
    proof {
        reveal_strlit("Hello, I am ");
        reveal_strlit("Greetings! They call me ");
        reveal_strlit(".");
        reveal_strlit("Mr. ");
        reveal_strlit("Dr. ");
        reveal_strlit("Private ");
        reveal_strlit("D-Pad");
        reveal_strlit("Sneed");
        reveal_strlit("Pile");
        reveal_strlit("Hello, I am Mr. D-Pad.");
        reveal_strlit("Greetings! They call me Dr. Sneed.");
        reveal_strlit("Hello, I am Private Pile.");
        assert(first@ =~= "Hello, I am Mr. D-Pad."@);
        assert(second@ =~= "Greetings! They call me Dr. Sneed."@);
        assert(third@ =~= "Hello, I am Private Pile."@);
    }
    (first, second, third, answer)
}

} // verus!
