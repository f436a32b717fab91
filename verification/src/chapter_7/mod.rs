use crate::text::{decimal, texts};
use vstd::prelude::*;

pub mod gas_station;
pub mod restaurant;

verus! {

/// The word on an order placed.
pub fn place_order() -> (line: String)
    ensures
        line@ == "Ordering a burger"@,
{
    "Ordering a burger".to_owned()
}

/// An errand in three lines: gatorade from the station's store, an order
/// placed, two burgers from the restaurant's kitchen.
pub fn run() -> (lines: Vec<String>)
    ensures
        texts(lines@) == seq![
            "Buying gatorade"@,
            "Ordering a burger"@,
            "Cooking "@ + decimal(2) + " burgers"@,
        ],
{
    let mut lines: Vec<String> = Vec::new();
    lines.push(gas_station::store::buy_gatorade());
    lines.push(place_order());
    lines.push(restaurant::kitchen::cook_burgers(2));
    assert(texts(lines@) =~= seq![
        "Buying gatorade"@,
        "Ordering a burger"@,
        "Cooking "@ + decimal(2) + " burgers"@,
    ]);
    lines
}

} // verus!
