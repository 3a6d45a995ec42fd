//! Scratchpad generation.
//!
//! A scratchpad holds twice the configured pair count, so its length is
//! always even and the kernel's pairing never runs out of bounds. Every fill
//! replaces the whole contents with freshly drawn values and keeps the
//! length; a new scratchpad is filled for every trial, so no trial reuses
//! another's data.

use vstd::prelude::*;

use crate::ieee::unit_interval_bits_f32;
use crate::ieee::unit_interval_bits_f64;
use crate::ieee::F32_ONE_BITS;
use crate::ieee::F64_ONE_BITS;
use crate::rng::rand_u128;
use crate::rng::rand_u16;
use crate::rng::rand_u32;
use crate::rng::rand_u64;
use crate::rng::rand_u8;

verus! {

/// Law: a scratchpad of 2·L elements always pairs exactly: its length is
/// even, and for every even index i below 2·L the partner index i + 1 is
/// below 2·L as well.
pub proof fn lemma_scratchpad_pairing(l: int)
    requires
        0 <= l,
    ensures
        (2 * l) % 2 == 0,
        forall|i: int| 0 <= i < 2 * l && #[trigger] (i % 2) == 0 ==> i + 1 < 2 * l,
{
}

/// Fills a scratchpad with uniformly drawn bytes, keeping its length.
pub fn randomly_fill_scratchpad_u8(pad: &mut Vec<u8>)
    ensures
        final(pad)@.len() == old(pad)@.len(),
{
    let n = pad.len();
    let mut fresh: Vec<u8> = Vec::new();
    let mut i: usize = 0;
    while i < n
        invariant
            i <= n,
            fresh@.len() == i,
        decreases n - i,
    {
        fresh.push(rand_u8());
        i = i + 1;
    }
    *pad = fresh;
}

/// Fills a scratchpad with uniformly drawn u16 values, keeping its length.
pub fn randomly_fill_scratchpad_u16(pad: &mut Vec<u16>)
    ensures
        final(pad)@.len() == old(pad)@.len(),
{
    let n = pad.len();
    let mut fresh: Vec<u16> = Vec::new();
    let mut i: usize = 0;
    while i < n
        invariant
            i <= n,
            fresh@.len() == i,
        decreases n - i,
    {
        fresh.push(rand_u16());
        i = i + 1;
    }
    *pad = fresh;
}

/// Fills a scratchpad with uniformly drawn u32 values, keeping its length.
pub fn randomly_fill_scratchpad_u32(pad: &mut Vec<u32>)
    ensures
        final(pad)@.len() == old(pad)@.len(),
{
    let n = pad.len();
    let mut fresh: Vec<u32> = Vec::new();
    let mut i: usize = 0;
    while i < n
        invariant
            i <= n,
            fresh@.len() == i,
        decreases n - i,
    {
        fresh.push(rand_u32());
        i = i + 1;
    }
    *pad = fresh;
}

/// Fills a scratchpad with uniformly drawn u64 values, keeping its length.
pub fn randomly_fill_scratchpad_u64(pad: &mut Vec<u64>)
    ensures
        final(pad)@.len() == old(pad)@.len(),
{
    let n = pad.len();
    let mut fresh: Vec<u64> = Vec::new();
    let mut i: usize = 0;
    while i < n
        invariant
            i <= n,
            fresh@.len() == i,
        decreases n - i,
    {
        fresh.push(rand_u64());
        i = i + 1;
    }
    *pad = fresh;
}

/// Fills a scratchpad with uniformly drawn u128 values, keeping its length.
pub fn randomly_fill_scratchpad_u128(pad: &mut Vec<u128>)
    ensures
        final(pad)@.len() == old(pad)@.len(),
{
    let n = pad.len();
    let mut fresh: Vec<u128> = Vec::new();
    let mut i: usize = 0;
    while i < n
        invariant
            i <= n,
            fresh@.len() == i,
        decreases n - i,
    {
        fresh.push(rand_u128());
        i = i + 1;
    }
    *pad = fresh;
}

/// Fills a scratchpad with bit patterns of single-precision values drawn
/// from [0.0, 1.0): every element's bit pattern is below that of 1.0.
pub fn randomly_fill_scratchpad_f32(pad: &mut Vec<u32>)
    ensures
        final(pad)@.len() == old(pad)@.len(),
        forall|k: int| 0 <= k < final(pad)@.len() ==> final(pad)@[k] < F32_ONE_BITS,
{
    let n = pad.len();
    let mut fresh: Vec<u32> = Vec::new();
    let mut i: usize = 0;
    while i < n
        invariant
            i <= n,
            fresh@.len() == i,
            forall|k: int| 0 <= k < fresh@.len() ==> fresh@[k] < F32_ONE_BITS,
        decreases n - i,
    {
        let raw = rand_u32();
        let draw = raw >> 9;
        assert(draw < 0x0080_0000) by (bit_vector)
            requires
                draw == raw >> 9,
        ;
        fresh.push(unit_interval_bits_f32(draw));
        i = i + 1;
    }
    *pad = fresh;
}

/// Fills a scratchpad with uniformly drawn single-precision bit patterns:
/// every 32-bit pattern, NaNs and infinities included, at its natural
/// bit-pattern frequency.
pub fn randomly_fill_scratchpad_any_f32(pad: &mut Vec<u32>)
    ensures
        final(pad)@.len() == old(pad)@.len(),
{
    let n = pad.len();
    let mut fresh: Vec<u32> = Vec::new();
    let mut i: usize = 0;
    while i < n
        invariant
            i <= n,
            fresh@.len() == i,
        decreases n - i,
    {
        fresh.push(rand_u32());
        i = i + 1;
    }
    *pad = fresh;
}

/// Fills a scratchpad with bit patterns of double-precision values drawn
/// from [0.0, 1.0): every element's bit pattern is below that of 1.0.
pub fn randomly_fill_scratchpad_f64(pad: &mut Vec<u64>)
    ensures
        final(pad)@.len() == old(pad)@.len(),
        forall|k: int| 0 <= k < final(pad)@.len() ==> final(pad)@[k] < F64_ONE_BITS,
{
    let n = pad.len();
    let mut fresh: Vec<u64> = Vec::new();
    let mut i: usize = 0;
    while i < n
        invariant
            i <= n,
            fresh@.len() == i,
            forall|k: int| 0 <= k < fresh@.len() ==> fresh@[k] < F64_ONE_BITS,
        decreases n - i,
    {
        let raw = rand_u64();
        let draw = raw >> 12;
        assert(draw < 0x0010_0000_0000_0000) by (bit_vector)
            requires
                draw == raw >> 12,
        ;
        fresh.push(unit_interval_bits_f64(draw));
        i = i + 1;
    }
    *pad = fresh;
}

/// Fills a scratchpad with uniformly drawn double-precision bit patterns:
/// every 64-bit pattern, NaNs and infinities included, at its natural
/// bit-pattern frequency.
pub fn randomly_fill_scratchpad_any_f64(pad: &mut Vec<u64>)
    ensures
        final(pad)@.len() == old(pad)@.len(),
{
    let n = pad.len();
    let mut fresh: Vec<u64> = Vec::new();
    let mut i: usize = 0;
    while i < n
        invariant
            i <= n,
            fresh@.len() == i,
        decreases n - i,
    {
        fresh.push(rand_u64());
        i = i + 1;
    }
    *pad = fresh;
}

} // verus!
