use rand::Rng;
use vstd::prelude::*;

verus! {

/// A number drawn at random from `low..=high`.
///
/// Calls `rand::thread_rng()` and, on the generator it hands out,
/// `Rng::gen_range` with the inclusive range. Trusted: the number lies in the
/// range. Which number it is, is not stated: two calls may differ. The
/// range is not empty, as `gen_range` asks.
#[verifier::external_body]
pub(crate) fn random_between(low: u8, high: u8) -> (value: u8)
    requires
        low <= high,
    ensures
        low <= value <= high,
{
    rand::thread_rng().gen_range(low..=high)
}

} // verus!
