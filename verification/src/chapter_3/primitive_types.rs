use vstd::prelude::*;

verus! {

/// A signed number, an unsigned one, and the sum of 12 and 10 that a block
/// hands to a variable of the first one's name.
pub fn integers() -> (numbers: (i32, u8, i32))
    ensures
        numbers == (-42i32, 64u8, 22i32),
{
    let x: i32 = -42;
    let y: u8 = 64;
    let signed = x;
    let x: i32 = {
        let a: i32 = 12;
        let b: i32 = 10;
        a + b
    };
    (signed, y, x)
}

/// The integers of the module.
pub fn run() -> (numbers: (i32, u8, i32))
    ensures
        numbers == (-42i32, 64u8, 22i32),
{
    integers()
}

} // verus!
