//! The engine's single source of randomness.

use rand::Rng;
use vstd::prelude::*;

verus! {

/// Draws a uniformly distributed value from the half-open range
/// `[lo, hi)`.
///
/// Relies on `rand::Rng::gen_range` called on the thread-local generator:
/// it panics only when the range is empty and otherwise returns a value of
/// the given range.
#[verifier::external_body]
pub(crate) fn rand_range(lo: u64, hi: u64) -> (r: u64)
    requires
        lo < hi,
    ensures
        lo <= r < hi,
{
    rand::thread_rng().gen_range(lo..hi)
}

} // verus!
