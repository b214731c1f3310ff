//! Random draws: an unseeded one for behaviour, a seeded one for terrain.
use vstd::prelude::*;

verus! {

/// The first 64-bit word of the standard generator seeded with `seed`.
pub uninterp spec fn seeded_word(seed: u64) -> u64;

/// Relies on `rand::rngs::StdRng::seed_from_u64` and `RngCore::next_u64`:
/// the generator is ChaCha12 seeded through PCG32, so its first word is a
/// function of the seed alone.
#[verifier::external_body]
pub(crate) fn seeded_draw(seed: u64) -> (r: u64)
    ensures
        r == seeded_word(seed),
{
    let mut rng = <rand::rngs::StdRng as rand::SeedableRng>::seed_from_u64(seed);
    rand::RngCore::next_u64(&mut rng)
}

/// Relies on `rand::thread_rng` and `Rng::gen_range`: a number drawn from
/// `0..n`, which panics only on an empty range.
#[verifier::external_body]
pub(crate) fn roll_below(n: u32) -> (r: u32)
    requires
        n > 0,
    ensures
        r < n,
{
    rand::Rng::gen_range(&mut rand::thread_rng(), 0..n)
}

} // verus!
