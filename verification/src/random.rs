//! The source of randomness: a seeded generator of the `rand` crate.
//!
//! Nothing is proved of `rand`. What this module states of it is believed:
//! that a sample lies in the range it was asked from.

use rand::rngs::StdRng;
use rand::Rng;
use rand::SeedableRng;
use vstd::prelude::*;

verus! {

/// `rand`'s standard generator. Its state is not modelled.
#[verifier::external_type_specification]
#[verifier::external_body]
pub struct ExStdRng(StdRng);

/// `SeedableRng::seed_from_u64` for `StdRng`: a generator whose stream is
/// fixed by `seed`. Nothing is claimed of the stream.
#[verifier::external_body]
pub(crate) fn seeded(seed: u64) -> (rng: StdRng) {
    StdRng::seed_from_u64(seed)
}

/// `Rng::gen_range` on the inclusive range `low..=high` of `u64`. The claim
/// is only that the sample lies in the range; `rand` panics on an empty
/// range, so `low <= high` is required.
#[verifier::external_body]
pub(crate) fn sample(rng: &mut StdRng, low: u64, high: u64) -> (value: u64)
    requires
        low <= high,
    ensures
        low <= value <= high,
{
    rng.gen_range(low..=high)
}

} // verus!
