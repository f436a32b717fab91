use crate::text::{decimal, decimal_text};
use vstd::prelude::*;
use vstd::string::*;

pub mod store;

verus! {

/// The station's word on pumping that many gallons.
pub fn pump_gas(gallons: u8) -> (line: String)
    ensures
        line@ == "Pumping "@ + decimal(gallons as nat),
{
    let mut line = "Pumping ".to_owned();
    line.append(decimal_text(gallons as u64).as_str());
    line
}

} // verus!
