use vstd::prelude::*;

verus! {

/// Counts up from 0 in a `loop` and leaves it at 25, with the count as its value.
pub fn loop_sample() -> (total: u8)
    ensures
        total == 25,
{
    let mut count: u8 = 0;
    loop
        invariant_except_break
            count < 25,
        ensures
            count == 25,
        decreases 25 - count,
    {
        count += 1;
        if count == 25 {
            break ;
        }
    }
    count
}

/// The numbers that a `for` loop over the array 10, 20, 30, 40, 50 meets, in its order.
pub fn for_sample() -> (met: Vec<u8>)
    ensures
        met@ == seq![10u8, 20u8, 30u8, 40u8, 50u8],
{
    let arr: [u8; 5] = [10, 20, 30, 40, 50];
    let mut met: Vec<u8> = Vec::new();
    for i in 0..5usize
        invariant
            arr@ == seq![10u8, 20u8, 30u8, 40u8, 50u8],
            met@ == arr@.take(i as int),
    {
        met.push(arr[i]);
        assert(met@ =~= arr@.take(i + 1));
    }
    assert(met@ =~= arr@);
    met
}

/// Counts up from 0 while the count is below 255.
pub fn while_sample() -> (count: u8)
    ensures
        count == 255,
{
    let mut count: u8 = 0;
    while count < 255
        invariant
            count <= 255,
        decreases 255 - count,
    {
        count += 1;
    }
    count
}

/// The results of the three loops: the `loop`, the `for`, the `while`.
pub fn run() -> (results: (u8, Vec<u8>, u8))
    ensures
        results.0 == 25,
        results.1@ == seq![10u8, 20u8, 30u8, 40u8, 50u8],
        results.2 == 255,
{
    let total = loop_sample();
    let met = for_sample();
    let count = while_sample();
    (total, met, count)
}

} // verus!
