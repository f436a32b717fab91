use vstd::prelude::*;

verus! {

/// Adds two numbers.
pub fn adder(num_1: i32, num_2: i32) -> (sum: i32)
    requires
        i32::MIN <= num_1 + num_2 <= i32::MAX,
    ensures
        sum == num_1 + num_2,
{
    num_1 + num_2
}

} // verus!
