//! The random draws the core makes, behind wrappers. Every caller states
//! what holds of its own state whatever value comes back.

use vstd::prelude::*;
use rand::RngExt;
use rand::SeedableRng;

verus! {

/// Declares rand's `StdRng` so it can stand in signatures and fields; the
/// generator state is opaque to the verifier.
#[verifier::external_type_specification]
#[verifier::external_body]
pub struct ExStdRng(rand::rngs::StdRng);

/// Relies on rand's `StdRng::seed_from_u64` (via `SeedableRng`): builds a
/// generator from a seed. Nothing is promised of the stream it yields.
#[verifier::external_body]
pub fn seed_rng(seed: u64) -> rand::rngs::StdRng {
    rand::rngs::StdRng::seed_from_u64(seed)
}

/// Relies on rand's `RngExt::random_range`: the draw lands in `0..bound`,
/// and the call panics only on an empty range, which the precondition
/// rules out.
#[verifier::external_body]
pub fn rng_below(rng: &mut rand::rngs::StdRng, bound: u64) -> (r: u64)
    requires
        bound > 0,
    ensures
        r < bound,
{
    rng.random_range(0..bound)
}

/// Relies on `rand::random`: a draw from the process-wide generator.
/// Nothing is promised of the value.
#[verifier::external_body]
pub fn random_u64() -> u64 {
    rand::random::<u64>()
}

} // verus!
