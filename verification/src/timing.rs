//! The trial timer.
//!
//! A trial takes one monotonic timestamp right before the kernel runs and
//! one right after, and reports the elapsed time in whole nanoseconds. The
//! readings come from the system clock, so nothing is stated of their
//! values; the clamp back to 64 bits is verified.

use vstd::prelude::*;

verus! {

#[verifier::external_type_specification]
#[verifier::external_body]
pub struct ExInstant(std::time::Instant);

/// Relies on std::time::Instant::now: a reading of the monotonic clock.
#[verifier::external_body]
pub fn monotonic_now() -> std::time::Instant {
    std::time::Instant::now()
}

/// Relies on std::time::Instant::elapsed: the time since this instant was
/// taken. The value depends on the clock, so nothing is stated of it.
#[verifier::external_body]
pub fn elapsed_since(start: &std::time::Instant) -> std::time::Duration {
    start.elapsed()
}

/// Relies on std::time::Duration::as_nanos: the whole duration counted in
/// nanoseconds.
#[verifier::external_body]
pub fn duration_as_nanos(d: &std::time::Duration) -> u128 {
    d.as_nanos()
}

/// The nanosecond count as a u64, saturating at the largest u64 — over five
/// centuries, far beyond any trial.
pub fn clamp_nanos_to_u64(n: u128) -> (r: u64)
    ensures
        r == if n > u64::MAX { u64::MAX as int } else { n as int },
{
    if n > u64::MAX as u128 {
        u64::MAX
    } else {
        n as u64
    }
}

} // verus!
