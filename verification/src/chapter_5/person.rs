use vstd::prelude::*;
use vstd::string::*;

verus! {

/// A user account.
#[derive(Debug, PartialEq, Eq)]
pub struct User {
    pub active: bool,
    pub name: String,
    pub email: String,
}

/// A `User` as a mathematical value.
pub struct UserView {
    pub active: bool,
    pub name: Seq<char>,
    pub email: Seq<char>,
}

impl View for User {
    type V = UserView;

    open spec fn view(&self) -> UserView {
        UserView { active: self.active, name: self.name@, email: self.email@ }
    }
}

impl User {
    /// The line with which the user greets.
    pub fn greet(&self) -> (line: String)
        ensures
            line@ == "Hello, my name is "@ + self.name@,
    {
        let mut line = "Hello, my name is ".to_owned();
        line.append(self.name.as_str());
        line
    }
}

/// A new, active user with the given address and name.
pub fn build_new_user(email: String, name: String) -> (user: User)
    ensures
        user@ == (UserView { active: true, name: name@, email: email@ }),
{
    let user = User { active: true, email, name };
    user
}

/// Deactivates the first user, builds a second with `build_new_user`, and
/// copies the first into a third; returns the second and the third.
pub fn run() -> (users: (User, User))
    ensures
        users.0@ == (UserView {
            active: true,
            name: "Alecia"@,
            email: "alecia@dpadllc.com"@,
        }),
        users.1@ == (UserView { active: false, name: "D-Pad"@, email: "dpad@dpadllc.com"@ }),
{
    let mut user = User {
        active: true,
        name: "D-Pad".to_owned(),
        email: "dpad@dpadllc.com".to_owned(),
    };
    user.active = false;
    let new_name: String = "Alecia".to_owned();
    let new_email: String = "alecia@dpadllc.com".to_owned();
    let new_user: User = build_new_user(new_email, new_name);
    let copied_user = User { active: false, ..user };
    (new_user, copied_user)
}

} // verus!
