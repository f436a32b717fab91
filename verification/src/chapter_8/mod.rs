use crate::text::decimal;
use std::collections::HashMap;
use vstd::prelude::*;

pub mod hash_map;
pub mod string_demo;

verus! {

/// What the string and the hash map parts of the chapter make, in that order.
pub fn run() -> (made: ((String, String), (Vec<&'static str>, HashMap<u64, u8>)))
    ensures
        made.0.0@ == "dpad"@ + seq!['_'] + decimal(29),
        made.0.1@ == "dpad"@,
        made.1.0@.len() == 2,
        made.1.0@[0]@ == "chad"@,
        made.1.0@[1]@ == "brad"@,
        made.1.1@ == Map::<u64, u8>::empty().insert(0, 1).insert(1, 0),
{
    let strings = string_demo::run();
    let scores = hash_map::run();
    (strings, scores)
}

} // verus!
