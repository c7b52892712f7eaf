//! The crate's one source of randomness.

use vstd::prelude::*;

use rand::Rng;

verus! {

/// A uniformly random value strictly below `n`.
///
/// Relies on `rand::Rng::random_range` over the half-open range `0..n`:
/// the sample lies inside the range. The call panics on an empty range,
/// which `n >= 1` rules out.
#[verifier::external_body]
pub(crate) fn random_below(n: u64) -> (r: u64)
    requires
        1 <= n,
    ensures
        r < n,
{
    rand::rng().random_range(0..n)
}

} // verus!
