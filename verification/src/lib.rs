//! An evolutionary-optimization engine: a weighted categorical sampler,
//! a gene/individual abstraction, single-point crossover operators, and a
//! population manager that evolves candidate solutions toward higher fitness.
//!
//! Probabilities and fitness scores are fixed-point integers in parts per
//! million: the value `SCALE` stands for 1.0.

use vstd::prelude::*;

pub mod chromosome;
pub mod crossover;
pub mod grammar;
pub mod individual;
pub mod population;
pub mod rates;
pub mod rng;
pub mod sampler;
pub mod structures;
pub mod words;

verus! {

/// Fixed-point scale: `SCALE` parts stand for a probability or weight of 1.0.
pub const SCALE: u64 = 1000000;

} // verus!
