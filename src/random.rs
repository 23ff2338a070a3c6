//! The random source of the game: a seedable generator of the `rand` crate.
use vstd::prelude::*;
use rand::Rng;
use rand::SeedableRng;

verus! {

#[verifier::external_type_specification]
#[verifier::external_body]
pub struct ExStdRng(rand::rngs::StdRng);

/// Relies on `rand::SeedableRng::seed_from_u64` for `StdRng`: a generator
/// whose stream is fixed by the seed.
#[verifier::external_body]
pub(crate) fn seeded_rng(seed: u64) -> (r: rand::rngs::StdRng) {
    rand::rngs::StdRng::seed_from_u64(seed)
}

/// Relies on `rand::Rng::gen_range` over `0..n`, which panics only on an empty
/// range: a value below `n`.
#[verifier::external_body]
pub(crate) fn draw_below(rng: &mut rand::rngs::StdRng, n: u64) -> (r: u64)
    requires
        n > 0,
    ensures
        r < n,
{
    rng.gen_range(0..n)
}

/// Relies on `rand::Rng::gen_range` over `0..=hi`, which is never empty: a
/// value of at most `hi`.
#[verifier::external_body]
pub(crate) fn draw_at_most(rng: &mut rand::rngs::StdRng, hi: u64) -> (r: u64)
    ensures
        r <= hi,
{
    rng.gen_range(0..=hi)
}

} // verus!
