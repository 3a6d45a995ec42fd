//! The addition kernels.
//!
//! A kernel walks a scratchpad of an even number of elements, adds each
//! element at an even index to the one that follows it, and passes every sum
//! through an optimization barrier so the work cannot be elided. Integer
//! sums wrap; floating sums follow IEEE-754 on the bit patterns. Each kernel
//! returns how many additions it performed together with a ghost sequence of
//! the sums themselves.

use vstd::prelude::*;

use crate::ieee::add_f32_bits;
use crate::ieee::add_f64_bits;
use crate::ieee::double_sum_bits;
use crate::ieee::single_sum_bits;

verus! {

/// The low eight bits of the true sum.
pub open spec fn wrapped_sum_u8(a: u8, b: u8) -> int {
    (a + b) % 0x100
}

/// The low sixteen bits of the true sum.
pub open spec fn wrapped_sum_u16(a: u16, b: u16) -> int {
    (a + b) % 0x1_0000
}

/// The low 32 bits of the true sum.
pub open spec fn wrapped_sum_u32(a: u32, b: u32) -> int {
    (a + b) % 0x1_0000_0000
}

/// The low 64 bits of the true sum.
pub open spec fn wrapped_sum_u64(a: u64, b: u64) -> int {
    (a + b) % 0x1_0000_0000_0000_0000int
}

/// The low 128 bits of the true sum.
pub open spec fn wrapped_sum_u128(a: u128, b: u128) -> int {
    (a + b) % 0x1_0000_0000_0000_0000_0000_0000_0000_0000int
}

/// For a sum below twice the width's range, wrapping is subtracting the
/// range once, and that is the sum modulo the range.
proof fn lemma_wrap_is_mod(x: int, r: int)
    requires
        0 < r,
        0 <= x < 2 * r,
    ensures
        x % r == if x >= r { x - r } else { x },
{
    if x >= r {
        vstd::arithmetic::div_mod::lemma_mod_multiples_vanish(1, x - r, r);
        vstd::arithmetic::div_mod::lemma_small_mod((x - r) as nat, r as nat);
    } else {
        vstd::arithmetic::div_mod::lemma_small_mod(x as nat, r as nat);
    }
}

/// Relies on std::hint::black_box: an identity that the compiler must treat
/// as observing its argument, so a computed value cannot be discarded as
/// dead code. The value is dropped here; only the barrier matters.
#[verifier::external_body]
fn observe<T>(value: T) {
    std::hint::black_box(value);
}

/// Wrapping addition: the result is the low eight bits of the true sum, and
/// overflow never panics.
pub fn add_wrapping_u8(a: u8, b: u8) -> (r: u8)
    ensures
        r == wrapped_sum_u8(a, b),
{
    proof {
        lemma_wrap_is_mod(a + b, 0x100);
    }
    a.wrapping_add(b)
}

/// Wrapping addition: the result is the low sixteen bits of the true sum.
pub fn add_wrapping_u16(a: u16, b: u16) -> (r: u16)
    ensures
        r == wrapped_sum_u16(a, b),
{
    proof {
        lemma_wrap_is_mod(a + b, 0x1_0000);
    }
    a.wrapping_add(b)
}

/// Wrapping addition: the result is the low 32 bits of the true sum.
pub fn add_wrapping_u32(a: u32, b: u32) -> (r: u32)
    ensures
        r == wrapped_sum_u32(a, b),
{
    proof {
        lemma_wrap_is_mod(a + b, 0x1_0000_0000);
    }
    a.wrapping_add(b)
}

/// Wrapping addition: the result is the low 64 bits of the true sum.
pub fn add_wrapping_u64(a: u64, b: u64) -> (r: u64)
    ensures
        r == wrapped_sum_u64(a, b),
{
    proof {
        lemma_wrap_is_mod(a + b, 0x1_0000_0000_0000_0000int);
    }
    a.wrapping_add(b)
}

/// Wrapping addition: the result is the low 128 bits of the true sum.
pub fn add_wrapping_u128(a: u128, b: u128) -> (r: u128)
    ensures
        r == wrapped_sum_u128(a, b),
{
    proof {
        lemma_wrap_is_mod(a + b, 0x1_0000_0000_0000_0000_0000_0000_0000_0000int);
    }
    a.wrapping_add(b)
}

/// Runs through every even index of the scratchpad and wrapping-adds the
/// element there to the one that follows it, observing each sum through the
/// optimization barrier. Performs exactly one addition per pair; the ghost
/// result lists every sum.
pub fn compute_u8_addition(pad: &Vec<u8>) -> (r: (usize, Ghost<Seq<u8>>))
    requires
        pad@.len() % 2 == 0,
    ensures
        r.0 == pad@.len() / 2,
        r.1@.len() == r.0,
        forall|k: int| 0 <= k < r.1@.len() ==> r.1@[k] == wrapped_sum_u8(pad@[2 * k], pad@[2 * k + 1]),
{
    let ghost mut sums: Seq<u8> = Seq::empty();
    let n = pad.len();
    let mut count: usize = 0;
    let mut i: usize = 0;
    while i < n
        invariant
            i % 2 == 0,
            i <= n,
            n == pad@.len(),
            n % 2 == 0,
            count == i / 2,
            sums.len() == count,
            forall|k: int| 0 <= k < sums.len() ==> sums[k] == wrapped_sum_u8(pad@[2 * k], pad@[2 * k + 1]),
        decreases n - i,
    {
        assert(i + 1 < n);
        let s = add_wrapping_u8(pad[i], pad[i + 1]);
        observe(s);
        proof {
            assert(2 * count == i);
            sums = sums.push(s);
        }
        count = count + 1;
        i = i + 2;
    }
    (count, Ghost(sums))
}

/// The u16 form of `compute_u8_addition`.
pub fn compute_u16_addition(pad: &Vec<u16>) -> (r: (usize, Ghost<Seq<u16>>))
    requires
        pad@.len() % 2 == 0,
    ensures
        r.0 == pad@.len() / 2,
        r.1@.len() == r.0,
        forall|k: int| 0 <= k < r.1@.len() ==> r.1@[k] == wrapped_sum_u16(pad@[2 * k], pad@[2 * k + 1]),
{
    let ghost mut sums: Seq<u16> = Seq::empty();
    let n = pad.len();
    let mut count: usize = 0;
    let mut i: usize = 0;
    while i < n
        invariant
            i % 2 == 0,
            i <= n,
            n == pad@.len(),
            n % 2 == 0,
            count == i / 2,
            sums.len() == count,
            forall|k: int| 0 <= k < sums.len() ==> sums[k] == wrapped_sum_u16(pad@[2 * k], pad@[2 * k + 1]),
        decreases n - i,
    {
        assert(i + 1 < n);
        let s = add_wrapping_u16(pad[i], pad[i + 1]);
        observe(s);
        proof {
            assert(2 * count == i);
            sums = sums.push(s);
        }
        count = count + 1;
        i = i + 2;
    }
    (count, Ghost(sums))
}

/// The u32 form of `compute_u8_addition`.
pub fn compute_u32_addition(pad: &Vec<u32>) -> (r: (usize, Ghost<Seq<u32>>))
    requires
        pad@.len() % 2 == 0,
    ensures
        r.0 == pad@.len() / 2,
        r.1@.len() == r.0,
        forall|k: int| 0 <= k < r.1@.len() ==> r.1@[k] == wrapped_sum_u32(pad@[2 * k], pad@[2 * k + 1]),
{
    let ghost mut sums: Seq<u32> = Seq::empty();
    let n = pad.len();
    let mut count: usize = 0;
    let mut i: usize = 0;
    while i < n
        invariant
            i % 2 == 0,
            i <= n,
            n == pad@.len(),
            n % 2 == 0,
            count == i / 2,
            sums.len() == count,
            forall|k: int| 0 <= k < sums.len() ==> sums[k] == wrapped_sum_u32(pad@[2 * k], pad@[2 * k + 1]),
        decreases n - i,
    {
        assert(i + 1 < n);
        let s = add_wrapping_u32(pad[i], pad[i + 1]);
        observe(s);
        proof {
            assert(2 * count == i);
            sums = sums.push(s);
        }
        count = count + 1;
        i = i + 2;
    }
    (count, Ghost(sums))
}

/// The u64 form of `compute_u8_addition`.
pub fn compute_u64_addition(pad: &Vec<u64>) -> (r: (usize, Ghost<Seq<u64>>))
    requires
        pad@.len() % 2 == 0,
    ensures
        r.0 == pad@.len() / 2,
        r.1@.len() == r.0,
        forall|k: int| 0 <= k < r.1@.len() ==> r.1@[k] == wrapped_sum_u64(pad@[2 * k], pad@[2 * k + 1]),
{
    let ghost mut sums: Seq<u64> = Seq::empty();
    let n = pad.len();
    let mut count: usize = 0;
    let mut i: usize = 0;
    while i < n
        invariant
            i % 2 == 0,
            i <= n,
            n == pad@.len(),
            n % 2 == 0,
            count == i / 2,
            sums.len() == count,
            forall|k: int| 0 <= k < sums.len() ==> sums[k] == wrapped_sum_u64(pad@[2 * k], pad@[2 * k + 1]),
        decreases n - i,
    {
        assert(i + 1 < n);
        let s = add_wrapping_u64(pad[i], pad[i + 1]);
        observe(s);
        proof {
            assert(2 * count == i);
            sums = sums.push(s);
        }
        count = count + 1;
        i = i + 2;
    }
    (count, Ghost(sums))
}

/// The u128 form of `compute_u8_addition`.
pub fn compute_u128_addition(pad: &Vec<u128>) -> (r: (usize, Ghost<Seq<u128>>))
    requires
        pad@.len() % 2 == 0,
    ensures
        r.0 == pad@.len() / 2,
        r.1@.len() == r.0,
        forall|k: int| 0 <= k < r.1@.len() ==> r.1@[k] == wrapped_sum_u128(pad@[2 * k], pad@[2 * k + 1]),
{
    let ghost mut sums: Seq<u128> = Seq::empty();
    let n = pad.len();
    let mut count: usize = 0;
    let mut i: usize = 0;
    while i < n
        invariant
            i % 2 == 0,
            i <= n,
            n == pad@.len(),
            n % 2 == 0,
            count == i / 2,
            sums.len() == count,
            forall|k: int| 0 <= k < sums.len() ==> sums[k] == wrapped_sum_u128(pad@[2 * k], pad@[2 * k + 1]),
        decreases n - i,
    {
        assert(i + 1 < n);
        let s = add_wrapping_u128(pad[i], pad[i + 1]);
        observe(s);
        proof {
            assert(2 * count == i);
            sums = sums.push(s);
        }
        count = count + 1;
        i = i + 2;
    }
    (count, Ghost(sums))
}

/// Runs through every even index of the scratchpad of single-precision bit
/// patterns and forms the IEEE-754 sum of the element there and the one that
/// follows it, observing each sum through the optimization barrier.
pub fn compute_f32_addition(pad: &Vec<u32>) -> (r: (usize, Ghost<Seq<u32>>))
    requires
        pad@.len() % 2 == 0,
    ensures
        r.0 == pad@.len() / 2,
        r.1@.len() == r.0,
        forall|k: int| 0 <= k < r.1@.len() ==> r.1@[k] == single_sum_bits(pad@[2 * k], pad@[2 * k + 1]),
{
    let ghost mut sums: Seq<u32> = Seq::empty();
    let n = pad.len();
    let mut count: usize = 0;
    let mut i: usize = 0;
    while i < n
        invariant
            i % 2 == 0,
            i <= n,
            n == pad@.len(),
            n % 2 == 0,
            count == i / 2,
            sums.len() == count,
            forall|k: int| 0 <= k < sums.len() ==> sums[k] == single_sum_bits(pad@[2 * k], pad@[2 * k + 1]),
        decreases n - i,
    {
        assert(i + 1 < n);
        let s = add_f32_bits(pad[i], pad[i + 1]);
        observe(s);
        proof {
            assert(2 * count == i);
            sums = sums.push(s);
        }
        count = count + 1;
        i = i + 2;
    }
    (count, Ghost(sums))
}

/// The double-precision form of `compute_f32_addition`.
pub fn compute_f64_addition(pad: &Vec<u64>) -> (r: (usize, Ghost<Seq<u64>>))
    requires
        pad@.len() % 2 == 0,
    ensures
        r.0 == pad@.len() / 2,
        r.1@.len() == r.0,
        forall|k: int| 0 <= k < r.1@.len() ==> r.1@[k] == double_sum_bits(pad@[2 * k], pad@[2 * k + 1]),
{
    let ghost mut sums: Seq<u64> = Seq::empty();
    let n = pad.len();
    let mut count: usize = 0;
    let mut i: usize = 0;
    while i < n
        invariant
            i % 2 == 0,
            i <= n,
            n == pad@.len(),
            n % 2 == 0,
            count == i / 2,
            sums.len() == count,
            forall|k: int| 0 <= k < sums.len() ==> sums[k] == double_sum_bits(pad@[2 * k], pad@[2 * k + 1]),
        decreases n - i,
    {
        assert(i + 1 < n);
        let s = add_f64_bits(pad[i], pad[i + 1]);
        observe(s);
        proof {
            assert(2 * count == i);
            sums = sums.push(s);
        }
        count = count + 1;
        i = i + 2;
    }
    (count, Ghost(sums))
}

} // verus!
