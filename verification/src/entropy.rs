//! The library's only contact with the process-wide random generator.

use rand::RngExt;
use vstd::prelude::*;

verus! {

/// Relies on `rand::RngExt::random_range`: returns a uniformly distributed
/// value in the half-open range `0..bound`, drawn from the thread-local
/// generator. `random_range` panics on an empty range, so a positive bound
/// is required.
#[verifier::external_body]
pub(crate) fn draw_uniform(bound: u64) -> (r: u64)
    requires
        bound >= 1,
    ensures
        r < bound,
{
    rand::rng().random_range(0..bound)
}

} // verus!
