//! An explicit, seedable source of randomness.
//!
//! Every sampling operation of the renderer draws from an `RngSource` that is
//! passed in by the caller, so a render can be made deterministic by seeding
//! the source. The generator itself comes from the `rand` crate and stands
//! behind trusted items; nothing is assumed of the values drawn beyond their
//! range.

use vstd::prelude::*;
use crate::fixed::SCALE;

verus! {

#[verifier::external_type_specification]
#[verifier::external_body]
pub struct ExStdRng(rand::rngs::StdRng);

/// A deterministic pseudo-random generator, seeded explicitly.
pub struct RngSource {
    inner: rand::rngs::StdRng,
}

impl RngSource {
    /// Relies on `rand::SeedableRng::seed_from_u64` for `rand::rngs::StdRng`:
    /// it builds a generator whose stream is a function of the seed alone.
    #[verifier::external_body]
    pub fn from_seed(seed: u64) -> RngSource {
        RngSource { inner: rand::SeedableRng::seed_from_u64(seed) }
    }
}

/// Relies on `rand::Rng::gen_range`: it returns a value inside the given
/// range, which here is never empty. Nothing else is assumed of the draw.
#[verifier::external_body]
pub(crate) fn next_unit(rng: &mut RngSource) -> (r: i64)
    ensures
        0 <= r < SCALE,
{
    rand::Rng::gen_range(&mut rng.inner, 0..SCALE)
}

} // verus!
