//! One trial per call: allocate a fresh scratchpad of 2·len elements, fill
//! it with random data, then time one kernel invocation over it. The fill
//! always precedes the first timestamp, so generation time is never part of
//! the measured window. The returned addition count is proved equal to the
//! configured pair count; the duration comes from the clock and carries no
//! promise.

use vstd::prelude::*;

use crate::kernel::compute_f32_addition;
use crate::kernel::compute_f64_addition;
use crate::kernel::compute_u128_addition;
use crate::kernel::compute_u16_addition;
use crate::kernel::compute_u32_addition;
use crate::kernel::compute_u64_addition;
use crate::kernel::compute_u8_addition;
use crate::scratchpad::randomly_fill_scratchpad_any_f32;
use crate::scratchpad::randomly_fill_scratchpad_any_f64;
use crate::scratchpad::randomly_fill_scratchpad_f32;
use crate::scratchpad::randomly_fill_scratchpad_f64;
use crate::scratchpad::randomly_fill_scratchpad_u128;
use crate::scratchpad::randomly_fill_scratchpad_u16;
use crate::scratchpad::randomly_fill_scratchpad_u32;
use crate::scratchpad::randomly_fill_scratchpad_u64;
use crate::scratchpad::randomly_fill_scratchpad_u8;
use crate::timing::clamp_nanos_to_u64;
use crate::timing::duration_as_nanos;
use crate::timing::elapsed_since;
use crate::timing::monotonic_now;

verus! {

/// What one trial reports: the measured wall-clock nanoseconds and how many
/// additions the kernel performed.
pub struct TrialOutcome {
    /// Elapsed wall-clock time of the kernel invocation, in nanoseconds.
    pub nanos: u64,
    /// Number of additions the kernel performed.
    pub additions: usize,
}

/// One benchmark trial over bytes: a fresh scratchpad of 2·len uniformly
/// drawn bytes, then one timed kernel invocation performing exactly len
/// wrapping additions.
pub fn perform_u8_addition_benchmark(len: usize) -> (t: TrialOutcome)
    requires
        len <= usize::MAX / 2,
    ensures
        t.additions == len,
{
    let mut pad: Vec<u8> = vec![0u8; 2 * len];
    randomly_fill_scratchpad_u8(&mut pad);
    let start = monotonic_now();
    let (count, _sums) = compute_u8_addition(&pad);
    let d = elapsed_since(&start);
    let nanos = clamp_nanos_to_u64(duration_as_nanos(&d));
    TrialOutcome { nanos, additions: count }
}

/// The u16 form of `perform_u8_addition_benchmark`.
pub fn perform_u16_addition_benchmark(len: usize) -> (t: TrialOutcome)
    requires
        len <= usize::MAX / 2,
    ensures
        t.additions == len,
{
    let mut pad: Vec<u16> = vec![0u16; 2 * len];
    randomly_fill_scratchpad_u16(&mut pad);
    let start = monotonic_now();
    let (count, _sums) = compute_u16_addition(&pad);
    let d = elapsed_since(&start);
    let nanos = clamp_nanos_to_u64(duration_as_nanos(&d));
    TrialOutcome { nanos, additions: count }
}

/// The u32 form of `perform_u8_addition_benchmark`.
pub fn perform_u32_addition_benchmark(len: usize) -> (t: TrialOutcome)
    requires
        len <= usize::MAX / 2,
    ensures
        t.additions == len,
{
    let mut pad: Vec<u32> = vec![0u32; 2 * len];
    randomly_fill_scratchpad_u32(&mut pad);
    let start = monotonic_now();
    let (count, _sums) = compute_u32_addition(&pad);
    let d = elapsed_since(&start);
    let nanos = clamp_nanos_to_u64(duration_as_nanos(&d));
    TrialOutcome { nanos, additions: count }
}

/// The u64 form of `perform_u8_addition_benchmark`.
pub fn perform_u64_addition_benchmark(len: usize) -> (t: TrialOutcome)
    requires
        len <= usize::MAX / 2,
    ensures
        t.additions == len,
{
    let mut pad: Vec<u64> = vec![0u64; 2 * len];
    randomly_fill_scratchpad_u64(&mut pad);
    let start = monotonic_now();
    let (count, _sums) = compute_u64_addition(&pad);
    let d = elapsed_since(&start);
    let nanos = clamp_nanos_to_u64(duration_as_nanos(&d));
    TrialOutcome { nanos, additions: count }
}

/// The u128 form of `perform_u8_addition_benchmark`.
pub fn perform_u128_addition_benchmark(len: usize) -> (t: TrialOutcome)
    requires
        len <= usize::MAX / 2,
    ensures
        t.additions == len,
{
    let mut pad: Vec<u128> = vec![0u128; 2 * len];
    randomly_fill_scratchpad_u128(&mut pad);
    let start = monotonic_now();
    let (count, _sums) = compute_u128_addition(&pad);
    let d = elapsed_since(&start);
    let nanos = clamp_nanos_to_u64(duration_as_nanos(&d));
    TrialOutcome { nanos, additions: count }
}

/// One trial over single-precision values drawn from [0.0, 1.0), carried as
/// bit patterns: exactly len IEEE-754 additions inside the timed window.
pub fn perform_f32_short_range_addition_benchmark(len: usize) -> (t: TrialOutcome)
    requires
        len <= usize::MAX / 2,
    ensures
        t.additions == len,
{
    let mut pad: Vec<u32> = vec![0u32; 2 * len];
    randomly_fill_scratchpad_f32(&mut pad);
    let start = monotonic_now();
    let (count, _sums) = compute_f32_addition(&pad);
    let d = elapsed_since(&start);
    let nanos = clamp_nanos_to_u64(duration_as_nanos(&d));
    TrialOutcome { nanos, additions: count }
}

/// One trial over arbitrary single-precision bit patterns, NaNs and
/// infinities included: exactly len IEEE-754 additions inside the timed
/// window.
pub fn perform_f32_long_range_addition_benchmark(len: usize) -> (t: TrialOutcome)
    requires
        len <= usize::MAX / 2,
    ensures
        t.additions == len,
{
    let mut pad: Vec<u32> = vec![0u32; 2 * len];
    randomly_fill_scratchpad_any_f32(&mut pad);
    let start = monotonic_now();
    let (count, _sums) = compute_f32_addition(&pad);
    let d = elapsed_since(&start);
    let nanos = clamp_nanos_to_u64(duration_as_nanos(&d));
    TrialOutcome { nanos, additions: count }
}

/// One trial over double-precision values drawn from [0.0, 1.0), carried as
/// bit patterns: exactly len IEEE-754 additions inside the timed window.
pub fn perform_f64_short_range_addition_benchmark(len: usize) -> (t: TrialOutcome)
    requires
        len <= usize::MAX / 2,
    ensures
        t.additions == len,
{
    let mut pad: Vec<u64> = vec![0u64; 2 * len];
    randomly_fill_scratchpad_f64(&mut pad);
    let start = monotonic_now();
    let (count, _sums) = compute_f64_addition(&pad);
    let d = elapsed_since(&start);
    let nanos = clamp_nanos_to_u64(duration_as_nanos(&d));
    TrialOutcome { nanos, additions: count }
}

/// One trial over arbitrary double-precision bit patterns, NaNs and
/// infinities included: exactly len IEEE-754 additions inside the timed
/// window.
pub fn perform_f64_long_range_addition_benchmark(len: usize) -> (t: TrialOutcome)
    requires
        len <= usize::MAX / 2,
    ensures
        t.additions == len,
{
    let mut pad: Vec<u64> = vec![0u64; 2 * len];
    randomly_fill_scratchpad_any_f64(&mut pad);
    let start = monotonic_now();
    let (count, _sums) = compute_f64_addition(&pad);
    let d = elapsed_since(&start);
    let nanos = clamp_nanos_to_u64(duration_as_nanos(&d));
    TrialOutcome { nanos, additions: count }
}

/// The nine benchmark variants: element type and, for the floating ones,
/// the draw's range.
#[derive(Clone, Copy)]
pub enum BenchKind {
    AddU8,
    AddU16,
    AddU32,
    AddU64,
    AddU128,
    AddF32ShortRange,
    AddF32LongRange,
    AddF64ShortRange,
    AddF64LongRange,
}

/// Runs the chosen benchmark for the given number of rounds, each round one
/// independent trial over a fresh scratchpad of 2·len elements, and returns
/// the measured durations in order: exactly one entry per round.
pub fn run_all_rounds(kind: BenchKind, len: usize, rounds: usize) -> (times: Vec<u64>)
    requires
        len <= usize::MAX / 2,
    ensures
        times@.len() == rounds,
{
    let mut times: Vec<u64> = Vec::new();
    let mut round: usize = 0;
    while round < rounds
        invariant
            round <= rounds,
            times@.len() == round,
            len <= usize::MAX / 2,
        decreases rounds - round,
    {
        let t = match kind {
            BenchKind::AddU8 => perform_u8_addition_benchmark(len),
            BenchKind::AddU16 => perform_u16_addition_benchmark(len),
            BenchKind::AddU32 => perform_u32_addition_benchmark(len),
            BenchKind::AddU64 => perform_u64_addition_benchmark(len),
            BenchKind::AddU128 => perform_u128_addition_benchmark(len),
            BenchKind::AddF32ShortRange => perform_f32_short_range_addition_benchmark(len),
            BenchKind::AddF32LongRange => perform_f32_long_range_addition_benchmark(len),
            BenchKind::AddF64ShortRange => perform_f64_short_range_addition_benchmark(len),
            BenchKind::AddF64LongRange => perform_f64_long_range_addition_benchmark(len),
        };
        times.push(t.nanos);
        round = round + 1;
    }
    times
}

} // verus!
