//! Fresh randomness from the operating system's entropy source.
use vstd::prelude::*;
use rand::{Rng, SeedableRng};

verus! {

/// Relies on `rand::rngs::StdRng::from_entropy` and `Rng::gen_range` over
/// `low..=high`: a value drawn uniformly from the inclusive range of a
/// freshly seeded generator; `gen_range` panics only on an empty range.
#[verifier::external_body]
pub(crate) fn random_in_range(low: u8, high: u8) -> (r: u8)
    requires
        low <= high,
    ensures
        low <= r <= high,
{
    rand::rngs::StdRng::from_entropy().gen_range(low..=high)
}

/// Relies on `rand::rngs::StdRng::from_entropy` and `Rng::gen::<u64>`: a
/// 64-bit value drawn from a freshly seeded generator; nothing is known of it.
#[verifier::external_body]
pub(crate) fn random_seed() -> (r: u64) {
    rand::rngs::StdRng::from_entropy().gen::<u64>()
}

} // verus!
