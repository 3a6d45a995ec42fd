//! Draws from the process-wide pseudo-random generator.
//!
//! Each function hands back one uniformly drawn value of its width. Nothing
//! can be promised of a uniformly random value, so none of these has an
//! `ensures`.

use vstd::prelude::*;

verus! {

/// Relies on fastrand::u8 over the full range: one uniformly drawn byte.
#[verifier::external_body]
pub fn rand_u8() -> u8 {
    fastrand::u8(..)
}

/// Relies on fastrand::u16 over the full range: one uniformly drawn value.
#[verifier::external_body]
pub fn rand_u16() -> u16 {
    fastrand::u16(..)
}

/// Relies on fastrand::u32 over the full range: one uniformly drawn value.
#[verifier::external_body]
pub fn rand_u32() -> u32 {
    fastrand::u32(..)
}

/// Relies on fastrand::u64 over the full range: one uniformly drawn value.
#[verifier::external_body]
pub fn rand_u64() -> u64 {
    fastrand::u64(..)
}

/// Relies on fastrand::u128 over the full range: one uniformly drawn value.
#[verifier::external_body]
pub fn rand_u128() -> u128 {
    fastrand::u128(..)
}

} // verus!
