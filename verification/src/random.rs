//! The source of random numbers.

use vstd::prelude::*;

verus! {

/// Draws a number from `0..bound` with `rand::Rng::gen_range` on the
/// generator that `rand::thread_rng` hands out. Taken on trust: that the
/// number lies in the range. Which number comes is open, and two calls may
/// differ. The call panics on an empty range, so `bound` must not be zero.
#[verifier::external_body]
pub(crate) fn random_below(bound: u32) -> (r: u32)
    requires
        bound > 0,
    ensures
        r < bound,
{
    rand::Rng::gen_range(&mut rand::thread_rng(), 0..bound)
}

} // verus!
