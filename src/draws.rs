//! Integers drawn from rand's generators.
use vstd::prelude::*;
use rand::rngs::StdRng;
use rand::Rng;
use rand::SeedableRng;

verus! {

#[verifier::external_type_specification]
#[verifier::external_body]
pub struct ExStdRng(StdRng);

/// What the `earlier.len()`-th draw from a `StdRng` seeded with `seed`
/// returns when it asks for an integer in `low..=high`, after draws over the
/// ranges `earlier`. A seeded generator's output depends on its seed and on
/// the draws made from it, and on nothing else.
pub uninterp spec fn seeded_draw(seed: u64, earlier: Seq<(i64, i64)>, low: i64, high: i64) -> i64;

/// A seeded generator, with the seed it was made from and the ranges drawn
/// from it so far.
pub struct SeededDraws {
    rng: StdRng,
    seed: Ghost<u64>,
    drawn: Ghost<Seq<(i64, i64)>>,
}

impl SeededDraws {
    pub closed spec fn seed(&self) -> u64 {
        self.seed@
    }

    pub closed spec fn drawn(&self) -> Seq<(i64, i64)> {
        self.drawn@
    }

    /// A generator that nothing has been drawn from yet.
    pub fn new(seed: u64) -> (r: SeededDraws)
        ensures
            r.seed() == seed,
            r.drawn() == Seq::<(i64, i64)>::empty(),
    {
        SeededDraws { rng: seeded_rng(seed), seed: Ghost(seed), drawn: Ghost(Seq::empty()) }
    }

    /// Relies on rand's `Rng::gen_range` over `low..=high`: it returns an
    /// integer of that range, which depends on the seed and the earlier draws
    /// alone, and panics only on an empty range.
    #[verifier::external_body]
    pub(crate) fn draw(&mut self, low: i64, high: i64) -> (r: i64)
        requires
            low <= high,
        ensures
            low <= r <= high,
            r == seeded_draw(old(self).seed(), old(self).drawn(), low, high),
            final(self).seed() == old(self).seed(),
            final(self).drawn() == old(self).drawn().push((low, high)),
    {
        self.rng.gen_range(low..=high)
    }
}

/// Relies on rand's `SeedableRng::seed_from_u64` for `StdRng`.
#[verifier::external_body]
fn seeded_rng(seed: u64) -> StdRng {
    StdRng::seed_from_u64(seed)
}

/// Relies on rand's `thread_rng` and `Rng::gen_range` over `low..=high`: an
/// integer of that range, and a panic only on an empty range.
#[verifier::external_body]
pub(crate) fn random_between(low: i64, high: i64) -> (r: i64)
    requires
        low <= high,
    ensures
        low <= r <= high,
{
    rand::thread_rng().gen_range(low..=high)
}

} // verus!
