use vstd::prelude::*;

verus! {

/// The store's word on a sale of gatorade.
pub fn buy_gatorade() -> (line: String)
    ensures
        line@ == "Buying gatorade"@,
{
    "Buying gatorade".to_owned()
}

} // verus!
