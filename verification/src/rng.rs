use vstd::prelude::*;

verus! {

/// fastrand's pseudo-random generator, declared so that a backoff sequence
/// can hold one as jitter state. Its inner state is opaque here: nothing is
/// assumed about the values it produces.
#[verifier::external_type_specification]
#[verifier::external_body]
pub struct ExRng(fastrand::Rng);

/// Relies on fastrand::Rng::with_seed: a generator started from the given seed.
#[verifier::external_body]
pub(crate) fn rng_with_seed(seed: u64) -> fastrand::Rng {
    fastrand::Rng::with_seed(seed)
}

/// Relies on fastrand::Rng::new: a generator seeded from the host's entropy.
#[verifier::external_body]
pub(crate) fn rng_from_entropy() -> fastrand::Rng {
    fastrand::Rng::new()
}

/// Relies on fastrand::Rng::u32 over the full range, which never panics and
/// may hand back any 32-bit value; the jitter bounds hold of every outcome.
#[verifier::external_body]
pub(crate) fn rng_next_u32(rng: &mut fastrand::Rng) -> u32 {
    rng.u32(..)
}

} // verus!
