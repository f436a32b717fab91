use vstd::prelude::*;

verus! {

/// The value under the name `x` after the name has been given to a second
/// value, and the first value, which a reference still reaches.
pub fn run() -> (values: (i32, i32))
    ensures
        values == (74i32, 25i32),
{
    let x: i32 = 25;
    let y: &i32 = &x;
    let x: i32 = 74;
    (x, *y)
}

} // verus!
