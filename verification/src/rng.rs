//! The one randomness source of the library.
//!
//! Randomness decides nothing the contracts care about beyond its bounds:
//! a leaf-particle variant and the scatter of flame particles.

use vstd::prelude::*;

verus! {

/// Relies on `rand::Rng::gen_range` over the half-open range `lo..hi`,
/// which samples a value of that range and panics only when the range is
/// empty.  Nothing beyond the bounds can be promised of a random draw.
#[verifier::external_body]
pub(crate) fn random_in_range(lo: i64, hi: i64) -> (r: i64)
    requires
        lo < hi,
    ensures
        lo <= r < hi,
{
    let mut rng = rand::thread_rng();
    rand::Rng::gen_range(&mut rng, lo..hi)
}

} // verus!
