use vstd::prelude::*;

verus! {

/// The number of threads that a task is split over.
pub const NUM_THREADS: u8 = 3;

/// The constant.
pub fn run() -> (threads: u8)
    ensures
        threads == NUM_THREADS,
        threads == 3,
{
    NUM_THREADS
}

} // verus!
