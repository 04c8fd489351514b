//! Trusted boundary to the `rand` crate.
//!
//! Fruit placement draws uniform integers from a seedable small random
//! number generator.  The simulation treats every value the generator may
//! hand back alike; the only fact taken on trust is that a draw from an
//! inclusive range lands inside that range.

use vstd::prelude::*;

verus! {

/// `rand::rngs::SmallRng`, opaque to the verifier: a seedable
/// pseudo-random number generator carried through the simulation.
#[verifier::external_type_specification]
#[verifier::external_body]
pub struct ExSmallRng(rand::rngs::SmallRng);

/// Relies on `rand::SeedableRng::seed_from_u64`: builds a generator from a
/// seed, so runs are reproducible.  Nothing is assumed about its state.
#[verifier::external_body]
pub(crate) fn rng_from_seed(seed: u64) -> rand::rngs::SmallRng {
    <rand::rngs::SmallRng as rand::SeedableRng>::seed_from_u64(seed)
}

/// Relies on `rand::Rng::gen_range` over an inclusive `i64` range: it
/// returns a value inside the range and panics only on an empty range,
/// which the precondition rules out.  Which value comes back is treated as
/// arbitrary: no two calls are assumed to agree.
#[verifier::external_body]
pub(crate) fn rng_range(rng: &mut rand::rngs::SmallRng, low: i64, high: i64) -> (r: i64)
    requires
        low <= high,
    ensures
        low <= r <= high,
{
    rand::Rng::gen_range(rng, low..=high)
}

} // verus!
