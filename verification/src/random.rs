//! A seeded, deterministic sequence of bounded draws.
//!
//! The generator behind the sequence is `rand`'s `StdRng` (a ChaCha stream
//! cipher): once seeded, its whole output stream is a function of the seed
//! alone, independent of machine, process, or running time. The sequence is
//! restartable from any seed, which is what makes every regeneration of the
//! grid reproducible.

use vstd::prelude::*;

verus! {

/// `rand`'s standard generator, declared so that a value of it can stand in a
/// field; it is opaque to verification.
#[verifier::external_type_specification]
#[verifier::external_body]
pub struct ExStdRng(rand::rngs::StdRng);

/// The value that `rand::rngs::StdRng`, seeded with `seed` through
/// `seed_from_u64`, produces on its `index`-th call to `next_u64` (counting
/// from 0). The generator is a stream cipher, so this is a function of the
/// two arguments alone.
pub uninterp spec fn draw_of(seed: u64, index: int) -> u64;

/// The draw at position `index` of `seed`'s stream, folded into
/// `[low, high)` by taking the remainder of the span.
pub open spec fn bounded_draw(seed: u64, index: int, low: int, high: int) -> int
    recommends
        low < high,
{
    low + (draw_of(seed, index) as int) % (high - low)
}

/// A deterministic cursor over the draws of one seed: draw `0`, then draw
/// `1`, and so on. Restarting from the same seed replays the same draws.
///
/// The fields are private: every `RandomSequence` is built by [`Self::new`],
/// which keeps the generator state and the ghost position in step.
pub struct RandomSequence {
    rng: rand::rngs::StdRng,
    seed: Ghost<u64>,
    drawn: Ghost<int>,
}

/// Relies on `rand::rngs::StdRng::seed_from_u64`: the returned generator's
/// state is a function of the seed alone.
#[verifier::external_body]
fn std_rng_from_seed(seed: u64) -> rand::rngs::StdRng {
    <rand::rngs::StdRng as rand::SeedableRng>::seed_from_u64(seed)
}

/// Relies on `rand::RngCore::next_u64` on `StdRng`, a ChaCha stream cipher:
/// the successive outputs of a generator seeded with `s.seed()` are the
/// values `draw_of(s.seed(), 0)`, `draw_of(s.seed(), 1)`, ... whatever the
/// machine or process. The private fields tie the generator to its seed and
/// to the number of draws already consumed.
#[verifier::external_body]
fn std_rng_next(s: &mut RandomSequence) -> (r: u64)
    ensures
        final(s).seed() == old(s).seed(),
        final(s).drawn() == old(s).drawn() + 1,
        r == draw_of(old(s).seed(), old(s).drawn()),
{
    rand::RngCore::next_u64(&mut s.rng)
}

impl RandomSequence {
    /// The seed this sequence was started from.
    pub closed spec fn seed(self) -> u64 {
        self.seed@
    }

    /// How many draws have been consumed so far; the next draw is
    /// `draw_of(self.seed(), self.drawn())`.
    pub closed spec fn drawn(self) -> int {
        self.drawn@
    }

    /// Start a fresh sequence from `seed`.
    pub fn new(seed: u64) -> (r: RandomSequence)
        ensures
            r.seed() == seed,
            r.drawn() == 0,
    {
        RandomSequence { rng: std_rng_from_seed(seed), seed: Ghost(seed), drawn: Ghost(0int) }
    }

    /// Restart from `seed`: the sequence forgets its history and replays
    /// `seed`'s draws from the beginning.
    pub fn reseed(&mut self, seed: u64)
        ensures
            final(self).seed() == seed,
            final(self).drawn() == 0,
    {
        *self = RandomSequence::new(seed);
    }

    /// Consume one draw and fold it into `[low, high)`.
    pub fn next_in_range(&mut self, low: i64, high: i64) -> (r: i64)
        requires
            low < high,
            high - low <= i64::MAX,
        ensures
            final(self).seed() == old(self).seed(),
            final(self).drawn() == old(self).drawn() + 1,
            r == bounded_draw(old(self).seed(), old(self).drawn(), low as int, high as int),
            low <= r < high,
    {
        let raw = std_rng_next(self);
        let span: u64 = (high - low) as u64;
        let rem: u64 = raw % span;
        proof {
            vstd::arithmetic::div_mod::lemma_mod_bound(raw as int, span as int);
        }
        low + (rem as i64)
    }
}

/// Relies on `rand::thread_rng` and `rand::Rng::gen_range` on the range
/// `0..bound`: some value below `bound`; nothing else is promised of it.
#[verifier::external_body]
pub(crate) fn random_below(bound: u64) -> (r: u64)
    requires
        bound > 0,
    ensures
        r < bound,
{
    rand::Rng::gen_range(&mut rand::thread_rng(), 0..bound)
}

} // verus!
