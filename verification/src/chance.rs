//! Random choices, drawn by the `rand` crate.

use vstd::prelude::*;
use rand::Rng;

verus! {

/// Draws an index with `rand::thread_rng` and `Rng::gen_range` over
/// `0..n`. The contract claims only that the index lies below `n`; which one
/// comes is left open, and two draws may differ.
#[verifier::external_body]
pub(crate) fn pick_below(n: usize) -> (i: usize)
    requires
        n > 0,
    ensures
        i < n,
{
    rand::thread_rng().gen_range(0..n)
}

} // verus!
