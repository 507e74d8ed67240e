//! The seeded pseudo-random source behind the full-board generator.

use vstd::prelude::*;

use rand::Rng;
use rand::SeedableRng;

verus! {

/// The sixteen boolean draws of a generator freshly seeded with `seed`. The
/// generator is deterministic, so the draws are a function of the seed alone;
/// two boards filled from the same seed receive identical draws.
pub uninterp spec fn fill_draws(seed: u64) -> Seq<bool>;

/// Relies on `rand::rngs::StdRng::seed_from_u64` and `rand::Rng::gen::<bool>`:
/// `StdRng` is a deterministic generator (the ChaCha block cipher with 12
/// rounds), so the sixteen draws of a freshly seeded generator depend on the
/// seed alone. The generator's state is opaque here, so the sixteen draws are
/// taken in one trusted step.
#[verifier::external_body]
pub(crate) fn seeded_fill_draws(seed: u64) -> (r: Vec<bool>)
    ensures
        r@ == fill_draws(seed),
        r@.len() == 16,
{
    let mut rng = rand::rngs::StdRng::seed_from_u64(seed);
    let mut draws = Vec::with_capacity(16);
    for _ in 0..16 {
        draws.push(rng.gen::<bool>());
    }
    draws
}

} // verus!
