use vstd::prelude::*;

pub mod generics;
pub mod lifetimes;
pub mod traits;

verus! {

/// What the three parts of the chapter show, in their order: generics,
/// traits, lifetimes.
pub fn run() -> (shown: (Option<i32>, (String, String, String, i32), (String, String, String)))
    ensures
        shown.0 == Some(12i32),
        shown.1.0@ == "Hello, I am Mr. D-Pad."@,
        shown.1.1@ == "Greetings! They call me Dr. Sneed."@,
        shown.1.2@ == "Hello, I am Private Pile."@,
        shown.1.3 == 42,
        shown.2.0@ == "nunyuh"@,
        shown.2.1@ == "long string is long"@,
        shown.2.2@ == "In a galaxy far"@,
{
    let first = generics::run();
    let second = traits::run();
    let third = lifetimes::run();
    (first, second, third)
}

} // verus!
