//! Scalar layer: IEEE-754 binary32 ("single") values carried as `u32` bit
//! patterns, so that every simulation value is plain data with exact,
//! deterministic semantics.
//!
//! The arithmetic itself is done by `rustc_apfloat`, a pure-software,
//! correctly-rounded IEEE-754 implementation (round to nearest, ties to
//! even). Each operation is named by an uninterpreted spec function of the
//! operand bit patterns; the wrappers below are the only trusted code.

use vstd::prelude::*;

verus! {

/// The binary32 sum of the values with bit patterns `a` and `b`.
pub uninterp spec fn add_bits(a: u32, b: u32) -> u32;

/// The binary32 product of the values with bit patterns `a` and `b`.
pub uninterp spec fn mul_bits(a: u32, b: u32) -> u32;

/// The binary32 quotient of the values with bit patterns `a` and `b`.
pub uninterp spec fn div_bits(a: u32, b: u32) -> u32;

/// The binary32 value nearest to the integer `i`, as a bit pattern.
pub uninterp spec fn f32_of_usize(i: usize) -> u32;

/// Sign bit of a binary32 bit pattern.
pub open spec fn sign_bit(b: u32) -> bool {
    b & 0x8000_0000u32 != 0
}

/// Exponent field of a binary32 bit pattern.
pub open spec fn exp_field(b: u32) -> u32 {
    (b >> 23u32) & 0xffu32
}

/// The pattern encodes a finite value (not an infinity, not a NaN).
pub open spec fn is_finite_bits(b: u32) -> bool {
    exp_field(b) != 0xffu32
}

/// The pattern encodes a NaN.
pub open spec fn is_nan_bits(b: u32) -> bool {
    exp_field(b) == 0xffu32 && b & 0x007f_ffffu32 != 0
}

/// The pattern of positive zero.
pub open spec fn is_pos_zero(b: u32) -> bool {
    b == 0u32
}

/// The pattern of negative zero.
pub open spec fn is_neg_zero(b: u32) -> bool {
    b == 0x8000_0000u32
}

/// The pattern encodes a zero of either sign.
pub open spec fn is_zero_bits(b: u32) -> bool {
    is_pos_zero(b) || is_neg_zero(b)
}

/// The zero whose sign bit is `neg`.
pub open spec fn zero_of_sign(neg: bool) -> u32 {
    if neg {
        0x8000_0000u32
    } else {
        0u32
    }
}

/// Adding the zero `b` to `a` returns `a` itself: true whenever `a` is not a
/// NaN, except that `-0.0 + +0.0` rounds to `+0.0`.
pub open spec fn add_keeps(a: u32, b: u32) -> bool {
    is_zero_bits(b) && !is_nan_bits(a) && !(is_pos_zero(b) && is_neg_zero(a))
}

/// Relies on `rustc_apfloat::ieee::Single`'s `+` (round to nearest, ties to
/// even): the sum is a function of the operand bit patterns alone. A zero
/// addend leaves the other operand unchanged, except for NaNs and for
/// `-0.0 + +0.0`, which is `+0.0`.
#[verifier::external_body]
pub(crate) fn f32_add(a: u32, b: u32) -> (r: u32)
    ensures
        r == add_bits(a, b),
        add_keeps(a, b) ==> r == a,
{
    let x: rustc_apfloat::ieee::Single = rustc_apfloat::Float::from_bits(a as u128);
    let y: rustc_apfloat::ieee::Single = rustc_apfloat::Float::from_bits(b as u128);
    rustc_apfloat::Float::to_bits((x + y).value) as u32
}

/// Relies on `rustc_apfloat::ieee::Single`'s `*` (round to nearest, ties to
/// even): the product is a function of the operand bit patterns alone. A
/// product of a positive zero and a finite value is the zero whose sign is
/// the sign of the other factor.
#[verifier::external_body]
pub(crate) fn f32_mul(a: u32, b: u32) -> (r: u32)
    ensures
        r == mul_bits(a, b),
        is_pos_zero(a) && is_finite_bits(b) ==> r == zero_of_sign(sign_bit(b)),
        is_pos_zero(b) && is_finite_bits(a) ==> r == zero_of_sign(sign_bit(a)),
{
    let x: rustc_apfloat::ieee::Single = rustc_apfloat::Float::from_bits(a as u128);
    let y: rustc_apfloat::ieee::Single = rustc_apfloat::Float::from_bits(b as u128);
    rustc_apfloat::Float::to_bits((x * y).value) as u32
}

/// Relies on `rustc_apfloat::ieee::Single`'s `/` (round to nearest, ties to
/// even): the quotient is a function of the operand bit patterns alone.
#[verifier::external_body]
pub(crate) fn f32_div(a: u32, b: u32) -> (r: u32)
    ensures
        r == div_bits(a, b),
{
    let x: rustc_apfloat::ieee::Single = rustc_apfloat::Float::from_bits(a as u128);
    let y: rustc_apfloat::ieee::Single = rustc_apfloat::Float::from_bits(b as u128);
    rustc_apfloat::Float::to_bits((x / y).value) as u32
}

/// Relies on `rustc_apfloat::ieee::Single::from_u128` (round to nearest,
/// ties to even): the conversion is a function of the integer alone, and
/// the integer zero converts to positive zero, whose pattern is all zeros.
#[verifier::external_body]
pub(crate) fn f32_from_usize(i: usize) -> (r: u32)
    ensures
        r == f32_of_usize(i),
        i == 0 ==> r == 0u32,
{
    let x: rustc_apfloat::StatusAnd<rustc_apfloat::ieee::Single> =
        rustc_apfloat::Float::from_u128(i as u128);
    rustc_apfloat::Float::to_bits(x.value) as u32
}

/// Bit pattern of `0.0`.
pub open spec fn zero_bits() -> u32 {
    f32_of_usize(0)
}

/// Bit pattern of `1.0`.
pub open spec fn one_bits() -> u32 {
    f32_of_usize(1)
}

/// Bit pattern of `2.0`.
pub open spec fn two_bits() -> u32 {
    f32_of_usize(2)
}

/// Bit pattern of `3.0`.
pub open spec fn three_bits() -> u32 {
    f32_of_usize(3)
}

/// Bit pattern of `0.5`, the correctly rounded quotient `1.0 / 2.0`.
pub open spec fn half_bits() -> u32 {
    div_bits(one_bits(), two_bits())
}

/// Bit pattern of `0.1`, the correctly rounded quotient `1.0 / 10.0`.
pub open spec fn tenth_bits() -> u32 {
    div_bits(one_bits(), f32_of_usize(10))
}

/// Bit pattern of `0.2`, the correctly rounded quotient `1.0 / 5.0`.
pub open spec fn fifth_bits() -> u32 {
    div_bits(one_bits(), f32_of_usize(5))
}

/// Bit pattern of `0.3`, the correctly rounded quotient `3.0 / 10.0`.
pub open spec fn three_tenths_bits() -> u32 {
    div_bits(three_bits(), f32_of_usize(10))
}

/// Bit pattern of `0.01`, the correctly rounded quotient `1.0 / 100.0`.
pub open spec fn hundredth_bits() -> u32 {
    div_bits(one_bits(), f32_of_usize(100))
}

} // verus!
