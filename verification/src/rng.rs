//! Sources of uniform random draws.
//!
//! The engine is intentionally stochastic; reproducible runs seed the
//! deterministic variant, while ordinary runs use the process-wide generator.

use vstd::prelude::*;

verus! {

/// Relies on rand::random_range: a uniformly distributed value drawn from the
/// half-open range `0..n`, so always below `n`. The range is non-empty, so the
/// call does not panic.
#[verifier::external_body]
fn system_random_below(n: u64) -> (r: u64)
    requires
        n > 0,
    ensures
        r < n,
{
    rand::random_range(0..n)
}

/// A source of uniform random draws: either a seeded deterministic generator
/// (a 64-bit linear congruential generator) or the process-wide generator.
pub enum RandomSource {
    Seeded { state: u64 },
    System,
}

/// One step of the seeded generator: the state times the multiplier plus the
/// increment, modulo two to the sixty-fourth.
pub open spec fn spec_lcg_next(state: u64) -> u64 {
    vstd::wrapping::u64_specs::wrapping_add(
        vstd::wrapping::u64_specs::wrapping_mul(state, 6364136223846793005),
        1442695040888963407,
    )
}

impl RandomSource {
    /// A deterministic source: the same seed gives the same draw sequence.
    pub fn seeded(seed: u64) -> (r: RandomSource)
        ensures
            r == (RandomSource::Seeded { state: seed }),
    {
        RandomSource::Seeded { state: seed }
    }

    /// The process-wide, non-deterministic source.
    pub fn system() -> RandomSource {
        RandomSource::System
    }

    /// One uniform draw from `0..n`. A seeded source is deterministic: the
    /// draw and the new state are functions of the old state alone, so two
    /// sources with the same seed give the same draw sequence.
    pub fn next_below(&mut self, n: u64) -> (r: u64)
        requires
            n > 0,
        ensures
            r < n,
            match *old(self) {
                RandomSource::Seeded { state } => {
                    &&& *final(self) == (RandomSource::Seeded { state: spec_lcg_next(state) })
                    &&& r == (spec_lcg_next(state) >> 33u64) % n
                },
                RandomSource::System => *final(self) == RandomSource::System,
            },
    {
        match self {
            RandomSource::Seeded { state } => {
                let next: u64 = state.wrapping_mul(6364136223846793005).wrapping_add(
                    1442695040888963407,
                );
                *state = next;
                (next >> 33) % n
            },
            RandomSource::System => system_random_below(n),
        }
    }
}

} // verus!
