//! Random numbers, drawn from the thread-local generator of the `rand` crate.

use rand::Rng;
use vstd::prelude::*;

verus! {

/// Draws a byte with `rand::random`. Nothing is known of the byte.
#[verifier::external_body]
pub(crate) fn random_byte() -> (r: u8) {
    rand::random()
}

/// Draws a number with `Rng::gen_range` over the inclusive range from `lo` to `hi`, which
/// panics on an empty range and otherwise gives a number of the range.
#[verifier::external_body]
pub(crate) fn random_between(lo: i32, hi: i32) -> (r: i32)
    requires
        lo <= hi,
    ensures
        lo <= r <= hi,
{
    rand::thread_rng().gen_range(lo..=hi)
}

} // verus!
