//! A microbenchmark harness for primitive addition: scratchpads of random
//! values, pairwise addition kernels behind an optimization barrier, timed
//! trials, and integer-exact summary statistics over the measured durations.
//!
//! Floating-point values are carried as their raw bit patterns; the IEEE-754
//! arithmetic on them is done by the rustc_apfloat crate, in software, on
//! those bit patterns.

pub mod bench;
pub mod ieee;
pub mod kernel;
pub mod rng;
pub mod scratchpad;
pub mod stats;
pub mod timing;

use vstd::prelude::*;

verus! {

/// Number of element pairs in a default scratchpad: a scratchpad holds
/// twice this many elements.
pub const DEFAULT_SCRATCHPAD_LENGTH: usize = 65536;

/// Default number of trials run per benchmark.
pub const DEFAULT_ROUND_COUNT: usize = 1024;

} // verus!
