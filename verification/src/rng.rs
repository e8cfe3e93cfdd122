//! The library's single source of randomness.
//!
//! Spawn positions and bullet headings are drawn from ranges; all the
//! contracts state about a draw is that it falls in the requested
//! range, so everything downstream is verified for every outcome.

use vstd::prelude::*;

verus! {

/// Draw a number from the half-open range `[lo, hi)`.
///
/// Relies on `rand::Rng::gen_range` over a half-open integer range
/// (through `rand::thread_rng`): the sample lies in `[lo, hi)`, and
/// the call panics only on an empty range, which the precondition
/// rules out.
#[verifier::external_body]
pub(crate) fn sample_in_range(lo: i64, hi: i64) -> (r: i64)
    requires
        lo < hi,
    ensures
        lo <= r < hi,
{
    rand::Rng::gen_range(&mut rand::thread_rng(), lo..hi)
}

} // verus!
