//! Seeded construction of the random source that drives a run.
use rand::rngs::StdRng;
use rand::SeedableRng;
use vstd::prelude::*;

verus! {

/// The generator type of `rand`, carried through as an opaque value.
#[verifier::external_type_specification]
#[verifier::external_body]
pub struct ExStdRng(rand::rngs::StdRng);

/// Creates the random source for a run from a 64-bit seed.
///
/// Trusted: the body is the call `StdRng::seed_from_u64(seed)` of `rand`. The
/// generator is opaque to the verifier, so nothing is claimed of the value that
/// comes back; `rand` documents that equal seeds give generators that produce
/// equal streams.
#[verifier::external_body]
pub fn seeded_rng(seed: u64) -> (rng: StdRng) {
    StdRng::seed_from_u64(seed)
}

} // verus!
