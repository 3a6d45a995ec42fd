//! Floating-point values as raw bit patterns.
//!
//! The library never holds a float: a single-precision value is a `u32` and
//! a double-precision value is a `u64`, each the value's IEEE-754 bit
//! pattern. The arithmetic on them is done by rustc_apfloat, a software
//! implementation of IEEE-754 that works on the bit patterns alone, so its
//! results depend only on its arguments.

use vstd::prelude::*;

verus! {

/// Raw bit pattern of the single-precision value 1.0.
pub const F32_ONE_BITS: u32 = 0x3F80_0000;

/// Raw bit pattern of the single-precision value +Infinity.
pub const F32_POS_INF_BITS: u32 = 0x7F80_0000;

/// Raw bit pattern of the single-precision value -Infinity.
pub const F32_NEG_INF_BITS: u32 = 0xFF80_0000;

/// Raw bit pattern of the double-precision value 1.0.
pub const F64_ONE_BITS: u64 = 0x3FF0_0000_0000_0000;

/// Raw bit pattern of the double-precision value +Infinity.
pub const F64_POS_INF_BITS: u64 = 0x7FF0_0000_0000_0000;

/// Raw bit pattern of the double-precision value -Infinity.
pub const F64_NEG_INF_BITS: u64 = 0xFFF0_0000_0000_0000;

/// The single-precision bit pattern denotes a NaN: exponent all ones and a
/// nonzero significand.
pub open spec fn f32_bits_is_nan(b: u32) -> bool {
    (b & 0x7F80_0000) == 0x7F80_0000 && (b & 0x007F_FFFF) != 0
}

/// The single-precision bit pattern denotes +Infinity or -Infinity.
pub open spec fn f32_bits_is_inf(b: u32) -> bool {
    b == F32_POS_INF_BITS || b == F32_NEG_INF_BITS
}

/// The single-precision bit pattern denotes a finite value: exponent not
/// all ones.
pub open spec fn f32_bits_is_finite(b: u32) -> bool {
    (b & 0x7F80_0000) != 0x7F80_0000
}

/// The double-precision bit pattern denotes a NaN.
pub open spec fn f64_bits_is_nan(b: u64) -> bool {
    (b & 0x7FF0_0000_0000_0000) == 0x7FF0_0000_0000_0000 && (b & 0x000F_FFFF_FFFF_FFFF) != 0
}

/// The double-precision bit pattern denotes +Infinity or -Infinity.
pub open spec fn f64_bits_is_inf(b: u64) -> bool {
    b == F64_POS_INF_BITS || b == F64_NEG_INF_BITS
}

/// The double-precision bit pattern denotes a finite value.
pub open spec fn f64_bits_is_finite(b: u64) -> bool {
    (b & 0x7FF0_0000_0000_0000) != 0x7FF0_0000_0000_0000
}

/// Runtime test of `f32_bits_is_nan`.
pub fn f32_is_nan_bits(b: u32) -> (r: bool)
    ensures
        r == f32_bits_is_nan(b),
{
    (b & 0x7F80_0000) == 0x7F80_0000 && (b & 0x007F_FFFF) != 0
}

/// Runtime test of `f32_bits_is_inf`.
pub fn f32_is_inf_bits(b: u32) -> (r: bool)
    ensures
        r == f32_bits_is_inf(b),
{
    b == F32_POS_INF_BITS || b == F32_NEG_INF_BITS
}

/// Runtime test of `f64_bits_is_nan`.
pub fn f64_is_nan_bits(b: u64) -> (r: bool)
    ensures
        r == f64_bits_is_nan(b),
{
    (b & 0x7FF0_0000_0000_0000) == 0x7FF0_0000_0000_0000 && (b & 0x000F_FFFF_FFFF_FFFF) != 0
}

/// Runtime test of `f64_bits_is_inf`.
pub fn f64_is_inf_bits(b: u64) -> (r: bool)
    ensures
        r == f64_bits_is_inf(b),
{
    b == F64_POS_INF_BITS || b == F64_NEG_INF_BITS
}

/// Bit pattern of the IEEE-754 single-precision sum of the two values the
/// argument bit patterns denote, rounded to nearest, ties to even.
pub uninterp spec fn single_sum_bits(a: u32, b: u32) -> u32;

/// Bit pattern of the IEEE-754 double-precision sum of the two values the
/// argument bit patterns denote, rounded to nearest, ties to even.
pub uninterp spec fn double_sum_bits(a: u64, b: u64) -> u64;

/// Relies on rustc_apfloat::ieee::Single: `+` is IEEE-754 binary32 addition,
/// round to nearest, ties to even, computed in software from the bit
/// patterns alone, so the result is a function of the arguments. The special
/// cases restate what its `add_r` does: a NaN operand gives a NaN; an
/// infinity beside a finite value survives unchanged; two infinities of one
/// sign give that infinity; two of opposite sign give a NaN.
#[verifier::external_body]
fn single_add_raw(a: u32, b: u32) -> (r: u32)
    ensures
        r == single_sum_bits(a, b),
        f32_bits_is_nan(a) || f32_bits_is_nan(b) ==> f32_bits_is_nan(r),
        f32_bits_is_inf(a) && f32_bits_is_finite(b) ==> r == a,
        f32_bits_is_finite(a) && f32_bits_is_inf(b) ==> r == b,
        f32_bits_is_inf(a) && f32_bits_is_inf(b) && a == b ==> r == a,
        f32_bits_is_inf(a) && f32_bits_is_inf(b) && a != b ==> f32_bits_is_nan(r),
{
    let x = <rustc_apfloat::ieee::Single as rustc_apfloat::Float>::from_bits(a as u128);
    let y = <rustc_apfloat::ieee::Single as rustc_apfloat::Float>::from_bits(b as u128);
    <rustc_apfloat::ieee::Single as rustc_apfloat::Float>::to_bits((x + y).value) as u32
}

/// Relies on rustc_apfloat::ieee::Double: `+` is IEEE-754 binary64 addition,
/// round to nearest, ties to even, computed in software from the bit
/// patterns alone; special cases as for the single-precision wrapper.
#[verifier::external_body]
fn double_add_raw(a: u64, b: u64) -> (r: u64)
    ensures
        r == double_sum_bits(a, b),
        f64_bits_is_nan(a) || f64_bits_is_nan(b) ==> f64_bits_is_nan(r),
        f64_bits_is_inf(a) && f64_bits_is_finite(b) ==> r == a,
        f64_bits_is_finite(a) && f64_bits_is_inf(b) ==> r == b,
        f64_bits_is_inf(a) && f64_bits_is_inf(b) && a == b ==> r == a,
        f64_bits_is_inf(a) && f64_bits_is_inf(b) && a != b ==> f64_bits_is_nan(r),
{
    let x = <rustc_apfloat::ieee::Double as rustc_apfloat::Float>::from_bits(a as u128);
    let y = <rustc_apfloat::ieee::Double as rustc_apfloat::Float>::from_bits(b as u128);
    <rustc_apfloat::ieee::Double as rustc_apfloat::Float>::to_bits((x + y).value) as u64
}

/// IEEE-754 single-precision addition on raw bit patterns: NaN beside
/// anything gives NaN, an infinity beside a finite value survives unchanged,
/// equal infinities give themselves, and opposite infinities give NaN.
pub fn add_f32_bits(a: u32, b: u32) -> (r: u32)
    ensures
        r == single_sum_bits(a, b),
        f32_bits_is_nan(a) || f32_bits_is_nan(b) ==> f32_bits_is_nan(r),
        f32_bits_is_inf(a) && f32_bits_is_finite(b) ==> r == a,
        f32_bits_is_finite(a) && f32_bits_is_inf(b) ==> r == b,
        f32_bits_is_inf(a) && f32_bits_is_inf(b) && a == b ==> r == a,
        f32_bits_is_inf(a) && f32_bits_is_inf(b) && a != b ==> f32_bits_is_nan(r),
{
    single_add_raw(a, b)
}

/// IEEE-754 double-precision addition on raw bit patterns; the same special
/// cases as `add_f32_bits`.
pub fn add_f64_bits(a: u64, b: u64) -> (r: u64)
    ensures
        r == double_sum_bits(a, b),
        f64_bits_is_nan(a) || f64_bits_is_nan(b) ==> f64_bits_is_nan(r),
        f64_bits_is_inf(a) && f64_bits_is_finite(b) ==> r == a,
        f64_bits_is_finite(a) && f64_bits_is_inf(b) ==> r == b,
        f64_bits_is_inf(a) && f64_bits_is_inf(b) && a == b ==> r == a,
        f64_bits_is_inf(a) && f64_bits_is_inf(b) && a != b ==> f64_bits_is_nan(r),
{
    double_add_raw(a, b)
}

/// Bit pattern of the single-precision value draw / 2^23, for draw below
/// 2^23.
pub uninterp spec fn single_unit_bits(draw: u32) -> u32;

/// Bit pattern of the double-precision value draw / 2^52, for draw below
/// 2^52.
pub uninterp spec fn double_unit_bits(draw: u64) -> u64;

/// Relies on rustc_apfloat::ieee::Single::from_u128 and Float::scalbn: the
/// result is the bit pattern of draw / 2^23. For draw < 2^23 the conversion
/// and the scaling are exact, the value lies in [0.0, 1.0), and a
/// non-negative value below 1.0 has a bit pattern below that of 1.0, since
/// non-negative IEEE values order as their bit patterns; for the same
/// reason a smaller draw gives a strictly smaller bit pattern.
#[verifier::external_body]
fn single_unit_raw(draw: u32) -> (r: u32)
    requires
        draw < 0x0080_0000,
    ensures
        r == single_unit_bits(draw),
        r < F32_ONE_BITS,
        forall|d: u32| d < draw ==> #[trigger] single_unit_bits(d) < r,
{
    let m = <rustc_apfloat::ieee::Single as rustc_apfloat::Float>::from_u128(draw as u128).value;
    let v = rustc_apfloat::Float::scalbn(m, -23);
    <rustc_apfloat::ieee::Single as rustc_apfloat::Float>::to_bits(v) as u32
}

/// Relies on rustc_apfloat::ieee::Double::from_u128 and Float::scalbn: the
/// result is the bit pattern of draw / 2^52, exact and in [0.0, 1.0) when
/// draw < 2^52, so its bit pattern is below that of 1.0 and a smaller draw
/// gives a strictly smaller bit pattern.
#[verifier::external_body]
fn double_unit_raw(draw: u64) -> (r: u64)
    requires
        draw < 0x0010_0000_0000_0000,
    ensures
        r == double_unit_bits(draw),
        r < F64_ONE_BITS,
        forall|d: u64| d < draw ==> #[trigger] double_unit_bits(d) < r,
{
    let m = <rustc_apfloat::ieee::Double as rustc_apfloat::Float>::from_u128(draw as u128).value;
    let v = rustc_apfloat::Float::scalbn(m, -52);
    <rustc_apfloat::ieee::Double as rustc_apfloat::Float>::to_bits(v) as u64
}

/// Bit pattern of the single-precision value draw / 2^23, a value in
/// [0.0, 1.0); distinct draws give distinct patterns, in the draws' order.
pub fn unit_interval_bits_f32(draw: u32) -> (r: u32)
    requires
        draw < 0x0080_0000,
    ensures
        r == single_unit_bits(draw),
        r < F32_ONE_BITS,
        forall|d: u32| d < draw ==> #[trigger] single_unit_bits(d) < r,
{
    single_unit_raw(draw)
}

/// Bit pattern of the double-precision value draw / 2^52, a value in
/// [0.0, 1.0); distinct draws give distinct patterns, in the draws' order.
pub fn unit_interval_bits_f64(draw: u64) -> (r: u64)
    requires
        draw < 0x0010_0000_0000_0000,
    ensures
        r == double_unit_bits(draw),
        r < F64_ONE_BITS,
        forall|d: u64| d < draw ==> #[trigger] double_unit_bits(d) < r,
{
    double_unit_raw(draw)
}

} // verus!
