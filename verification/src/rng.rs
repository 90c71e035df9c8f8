//! Trusted boundary around the `fastrand` pseudo-random generator.
//!
//! Each sequence generator owns one `fastrand::Rng`, seeded independently at
//! creation, so no two generators share mutable state. Nothing is assumed
//! about which values come out beyond the range bound that `fastrand`
//! documents.

use vstd::prelude::*;

verus! {

#[verifier::external_type_specification]
#[verifier::external_body]
pub struct ExRng(fastrand::Rng);

/// Relies on `fastrand::Rng::new`: a freshly seeded random generator,
/// independent of every other generator.
#[verifier::external_body]
pub(crate) fn fresh_rng() -> fastrand::Rng {
    fastrand::Rng::new()
}

/// Relies on `fastrand::Rng::u32`: a draw from the half-open range
/// `0..bound`, so the result is always below `bound`.
#[verifier::external_body]
pub(crate) fn rng_u32_below(rng: &mut fastrand::Rng, bound: u32) -> (r: u32)
    requires
        bound >= 1,
    ensures
        r < bound,
{
    rng.u32(0..bound)
}

} // verus!
