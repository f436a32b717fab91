use crate::text::{decimal, decimal_text};
use vstd::prelude::*;
use vstd::string::*;

verus! {

/// The kitchen's word on cooking that many burgers.
pub fn cook_burgers(how_many: u8) -> (line: String)
    ensures
        line@ == "Cooking "@ + decimal(how_many as nat) + " burgers"@,
{
    let mut line = "Cooking ".to_owned();
    line.append(decimal_text(how_many as u64).as_str());
    line.append(" burgers");
    line
}

} // verus!
