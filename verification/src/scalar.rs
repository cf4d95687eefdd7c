//! Scalar layer: IEEE-754 binary32 values carried as `u32` bit patterns.
//!
//! Every scalar in this library is the bit pattern of an IEEE-754 binary32
//! (single-precision) value. Predicates and sign operations (negation,
//! absolute value, ordering, equality) are defined directly on the bit
//! pattern and verified; rounding arithmetic (addition, multiplication,
//! square root, ...) is performed by outside libraries behind trusted
//! wrappers whose results are named by uninterpreted spec functions.

use vstd::prelude::*;

verus! {

/// Bit pattern of the general tolerance 1e-6 used for zero / near-zero and
/// normalization decisions.
pub const EPSILON: u32 = 0x358637BD;

/// Bit pattern of the coarser spatial tolerance 1e-4, exposed for callers'
/// spatial-equality comparisons; no operation in this crate consumes it.
pub const SPATIAL_EPSILON: u32 = 0x38D1B717;

/// Bit pattern of 1.0.
pub const ONE: u32 = 0x3F800000;

/// Bit pattern of -1.0.
pub const NEG_ONE: u32 = 0xBF800000;

/// Bit pattern of 2.0.
pub const TWO: u32 = 0x40000000;

/// Bit pattern of +0.0.
pub const POS_ZERO: u32 = 0;

/// The magnitude (sign bit cleared) of a binary32 bit pattern.
pub open spec fn mag(a: u32) -> u32 {
    a % 0x8000_0000u32
}

/// Whether the sign bit of a binary32 bit pattern is set.
pub open spec fn is_neg(a: u32) -> bool {
    a >= 0x8000_0000u32
}

/// The biased exponent field (bits 23..31) of a binary32 bit pattern.
pub open spec fn exp_field(a: u32) -> u32 {
    mag(a) / 0x0080_0000u32
}

/// The fraction field (bits 0..23) of a binary32 bit pattern.
pub open spec fn frac_field(a: u32) -> u32 {
    mag(a) % 0x0080_0000u32
}

/// Whether the bit pattern encodes a NaN (exponent all ones, fraction
/// nonzero).
pub open spec fn is_nan_bits(a: u32) -> bool {
    exp_field(a) == 0xFF && frac_field(a) != 0
}

/// Whether the bit pattern encodes a finite value (exponent not all ones,
/// so neither an infinity nor a NaN).
pub open spec fn is_finite_bits(a: u32) -> bool {
    exp_field(a) != 0xFF
}

/// The sort key of a binary32 bit pattern: its magnitude, negated when the
/// sign bit is set. For two non-NaN patterns, the encoded values compare
/// exactly as their keys do; the two zero encodings share the key 0.
pub open spec fn key(a: u32) -> int {
    if is_neg(a) {
        -(mag(a) as int)
    } else {
        mag(a) as int
    }
}

/// IEEE-754 `<` on two bit patterns: false when either is a NaN, otherwise
/// the order of the sort keys.
pub open spec fn lt_bits(a: u32, b: u32) -> bool {
    !is_nan_bits(a) && !is_nan_bits(b) && key(a) < key(b)
}

/// IEEE-754 `>` on two bit patterns.
pub open spec fn gt_bits(a: u32, b: u32) -> bool {
    lt_bits(b, a)
}

/// IEEE-754 `==` on two bit patterns: false when either is a NaN; the two
/// zero encodings are equal.
pub open spec fn eq_bits(a: u32, b: u32) -> bool {
    !is_nan_bits(a) && !is_nan_bits(b) && key(a) == key(b)
}

/// IEEE-754 negation: the sign bit flipped, all other bits kept.
pub open spec fn neg_bits(a: u32) -> u32 {
    if is_neg(a) {
        (a - 0x8000_0000u32) as u32
    } else {
        (a + 0x8000_0000u32) as u32
    }
}

/// IEEE-754 absolute value: the sign bit cleared, all other bits kept.
pub open spec fn abs_bits(a: u32) -> u32 {
    mag(a)
}

/// The smaller of two values, ignoring NaN: if one operand is a NaN the
/// other is returned. Mirrors the standard library's scalar `min`.
pub open spec fn min_bits(a: u32, b: u32) -> u32 {
    if is_nan_bits(a) {
        b
    } else if is_nan_bits(b) {
        a
    } else if lt_bits(b, a) {
        b
    } else {
        a
    }
}

/// The larger of two values, ignoring NaN: if one operand is a NaN the
/// other is returned. Mirrors the standard library's scalar `max`.
pub open spec fn max_bits(a: u32, b: u32) -> u32 {
    if is_nan_bits(a) {
        b
    } else if is_nan_bits(b) {
        a
    } else if lt_bits(a, b) {
        b
    } else {
        a
    }
}

/// Clamp to the inclusive range `[lo, hi]`: `lo` when the value is below
/// it, `hi` when above it, the value itself otherwise (in particular a NaN
/// value is returned unchanged). Mirrors the standard library's scalar
/// `clamp`.
pub open spec fn clamp_bits(a: u32, lo: u32, hi: u32) -> u32 {
    if lt_bits(a, lo) {
        lo
    } else if gt_bits(a, hi) {
        hi
    } else {
        a
    }
}

/// Whether the bit pattern encodes a NaN.
pub fn is_nan_b(a: u32) -> (r: bool)
    ensures
        r == is_nan_bits(a),
{
    let m: u32 = a % 0x8000_0000u32;
    m / 0x0080_0000u32 == 0xFF && m % 0x0080_0000u32 != 0
}

/// Whether the bit pattern encodes a finite value.
pub fn is_finite_b(a: u32) -> (r: bool)
    ensures
        r == is_finite_bits(a),
{
    let m: u32 = a % 0x8000_0000u32;
    m / 0x0080_0000u32 != 0xFF
}

/// IEEE-754 `<` on two bit patterns.
pub fn lt_b(a: u32, b: u32) -> (r: bool)
    ensures
        r == lt_bits(a, b),
{
    if is_nan_b(a) || is_nan_b(b) {
        return false;
    }
    let na: bool = a >= 0x8000_0000u32;
    let nb: bool = b >= 0x8000_0000u32;
    let ma: u32 = a % 0x8000_0000u32;
    let mb: u32 = b % 0x8000_0000u32;
    if na && !nb {
        ma != 0 || mb != 0
    } else if !na && nb {
        false
    } else if !na && !nb {
        ma < mb
    } else {
        mb < ma
    }
}

/// IEEE-754 `==` on two bit patterns.
pub fn eq_b(a: u32, b: u32) -> (r: bool)
    ensures
        r == eq_bits(a, b),
{
    if is_nan_b(a) || is_nan_b(b) {
        return false;
    }
    let na: bool = a >= 0x8000_0000u32;
    let nb: bool = b >= 0x8000_0000u32;
    let ma: u32 = a % 0x8000_0000u32;
    let mb: u32 = b % 0x8000_0000u32;
    if ma == 0 && mb == 0 {
        true
    } else {
        na == nb && ma == mb
    }
}

/// IEEE-754 negation of a bit pattern.
pub fn neg_b(a: u32) -> (r: u32)
    ensures
        r == neg_bits(a),
{
    if a >= 0x8000_0000u32 {
        a - 0x8000_0000u32
    } else {
        a + 0x8000_0000u32
    }
}

/// IEEE-754 absolute value of a bit pattern.
pub fn abs_b(a: u32) -> (r: u32)
    ensures
        r == abs_bits(a),
{
    a % 0x8000_0000u32
}

/// The smaller of two values, ignoring NaN.
pub fn min_b(a: u32, b: u32) -> (r: u32)
    ensures
        r == min_bits(a, b),
{
    if is_nan_b(a) {
        b
    } else if is_nan_b(b) {
        a
    } else if lt_b(b, a) {
        b
    } else {
        a
    }
}

/// The larger of two values, ignoring NaN.
pub fn max_b(a: u32, b: u32) -> (r: u32)
    ensures
        r == max_bits(a, b),
{
    if is_nan_b(a) {
        b
    } else if is_nan_b(b) {
        a
    } else if lt_b(a, b) {
        b
    } else {
        a
    }
}

/// Clamp a value to the inclusive range `[lo, hi]`.
pub fn clamp_b(a: u32, lo: u32, hi: u32) -> (r: u32)
    ensures
        r == clamp_bits(a, lo, hi),
{
    if lt_b(a, lo) {
        lo
    } else if lt_b(hi, a) {
        hi
    } else {
        a
    }
}

/// The bit pattern of the rounded binary32 sum of the two encoded values.
pub uninterp spec fn add_bits(a: u32, b: u32) -> u32;

/// The bit pattern of the rounded binary32 difference of the two encoded
/// values.
pub uninterp spec fn sub_bits(a: u32, b: u32) -> u32;

/// The bit pattern of the rounded binary32 product of the two encoded
/// values.
pub uninterp spec fn mul_bits(a: u32, b: u32) -> u32;

/// The bit pattern of the rounded binary32 quotient of the two encoded
/// values.
pub uninterp spec fn div_bits(a: u32, b: u32) -> u32;

/// The bit pattern of the correctly rounded binary32 square root of the
/// encoded value.
pub uninterp spec fn sqrt_bits(a: u32) -> u32;

/// The bit pattern of the encoded value rounded toward negative infinity
/// to an integral value.
pub uninterp spec fn floor_bits(a: u32) -> u32;

/// The bit pattern of the encoded value rounded toward positive infinity
/// to an integral value.
pub uninterp spec fn ceil_bits(a: u32) -> u32;

/// The bit pattern of the encoded value rounded to the nearest integral
/// value, ties away from zero.
pub uninterp spec fn round_bits(a: u32) -> u32;

/// The bit pattern of the arc cosine of the encoded value.
pub uninterp spec fn acos_bits(a: u32) -> u32;

/// The bit pattern of the sine of the encoded value.
pub uninterp spec fn sin_bits(a: u32) -> u32;

/// Relies on rustc_apfloat's binary32 addition, rounding to nearest, ties
/// to even, as the hardware operation does. The result's bits depend on the
/// operand bits alone. IEEE-754 addition yields a NaN whenever an operand
/// is a NaN, and for non-NaN results the rounded sum (sign of a zero result
/// included) does not depend on the operand order.
#[verifier::external_body]
pub(crate) fn add_f(a: u32, b: u32) -> (r: u32)
    ensures
        r == add_bits(a, b),
        is_nan_bits(a) || is_nan_bits(b) ==> is_nan_bits(r),
        !is_nan_bits(r) ==> r == add_bits(b, a),
{
    let x: rustc_apfloat::ieee::Single = rustc_apfloat::Float::from_bits(a as u128);
    let y: rustc_apfloat::ieee::Single = rustc_apfloat::Float::from_bits(b as u128);
    let s = rustc_apfloat::Float::add_r(x, y, rustc_apfloat::Round::NearestTiesToEven);
    rustc_apfloat::Float::to_bits(s.value) as u32
}

/// Relies on rustc_apfloat's binary32 subtraction, rounding to nearest,
/// ties to even, as the hardware operation does. IEEE-754 subtraction
/// yields a NaN whenever an operand is a NaN; subtracting a finite value
/// from itself yields +0.0; and for a non-NaN result, swapping the operands
/// yields the value's exact negation (rounding is symmetric under sign, and
/// a zero result compares equal to its negation).
#[verifier::external_body]
pub(crate) fn sub_f(a: u32, b: u32) -> (r: u32)
    ensures
        r == sub_bits(a, b),
        is_nan_bits(a) || is_nan_bits(b) ==> is_nan_bits(r),
        a == b && is_finite_bits(a) ==> r == POS_ZERO,
        !is_nan_bits(r) ==> eq_bits(r, neg_bits(sub_bits(b, a))),
{
    let x: rustc_apfloat::ieee::Single = rustc_apfloat::Float::from_bits(a as u128);
    let y: rustc_apfloat::ieee::Single = rustc_apfloat::Float::from_bits(b as u128);
    let s = rustc_apfloat::Float::sub_r(x, y, rustc_apfloat::Round::NearestTiesToEven);
    rustc_apfloat::Float::to_bits(s.value) as u32
}

/// Relies on rustc_apfloat's binary32 multiplication, rounding to nearest,
/// ties to even, as the hardware operation does. IEEE-754 multiplication
/// yields a NaN whenever an operand is a NaN, and for non-NaN results the
/// rounded product (the zero and infinity sign rules included) does not
/// depend on the operand order.
#[verifier::external_body]
pub(crate) fn mul_f(a: u32, b: u32) -> (r: u32)
    ensures
        r == mul_bits(a, b),
        is_nan_bits(a) || is_nan_bits(b) ==> is_nan_bits(r),
        !is_nan_bits(r) ==> r == mul_bits(b, a),
{
    let x: rustc_apfloat::ieee::Single = rustc_apfloat::Float::from_bits(a as u128);
    let y: rustc_apfloat::ieee::Single = rustc_apfloat::Float::from_bits(b as u128);
    let s = rustc_apfloat::Float::mul_r(x, y, rustc_apfloat::Round::NearestTiesToEven);
    rustc_apfloat::Float::to_bits(s.value) as u32
}

/// Relies on rustc_apfloat's binary32 division, rounding to nearest, ties
/// to even, as the hardware operation does. The result's bits depend on the
/// operand bits alone; division by zero follows the IEEE-754 rules (an
/// infinity, or a NaN for zero over zero), it is not an error.
#[verifier::external_body]
pub(crate) fn div_f(a: u32, b: u32) -> (r: u32)
    ensures
        r == div_bits(a, b),
{
    let x: rustc_apfloat::ieee::Single = rustc_apfloat::Float::from_bits(a as u128);
    let y: rustc_apfloat::ieee::Single = rustc_apfloat::Float::from_bits(b as u128);
    let s = rustc_apfloat::Float::div_r(x, y, rustc_apfloat::Round::NearestTiesToEven);
    rustc_apfloat::Float::to_bits(s.value) as u32
}

/// Relies on libm's sqrtf, the correctly rounded binary32 square root: the
/// result's bits depend on the argument's bits alone.
#[verifier::external_body]
pub(crate) fn sqrt_f(a: u32) -> (r: u32)
    ensures
        r == sqrt_bits(a),
{
    let r: u32 = bytemuck::cast(libm::sqrtf(bytemuck::cast(a)));
    r
}

/// Relies on libm's floorf, the exact binary32 round toward negative
/// infinity: the result's bits depend on the argument's bits alone.
#[verifier::external_body]
pub(crate) fn floor_f(a: u32) -> (r: u32)
    ensures
        r == floor_bits(a),
{
    let r: u32 = bytemuck::cast(libm::floorf(bytemuck::cast(a)));
    r
}

/// Relies on libm's ceilf, the exact binary32 round toward positive
/// infinity: the result's bits depend on the argument's bits alone.
#[verifier::external_body]
pub(crate) fn ceil_f(a: u32) -> (r: u32)
    ensures
        r == ceil_bits(a),
{
    let r: u32 = bytemuck::cast(libm::ceilf(bytemuck::cast(a)));
    r
}

/// Relies on libm's roundf, the exact binary32 round to nearest integral
/// value with ties away from zero: the result's bits depend on the
/// argument's bits alone.
#[verifier::external_body]
pub(crate) fn round_f(a: u32) -> (r: u32)
    ensures
        r == round_bits(a),
{
    let r: u32 = bytemuck::cast(libm::roundf(bytemuck::cast(a)));
    r
}

/// Relies on libm's acosf: a deterministic binary32 arc cosine whose
/// result's bits depend on the argument's bits alone.
#[verifier::external_body]
pub(crate) fn acos_f(a: u32) -> (r: u32)
    ensures
        r == acos_bits(a),
{
    let r: u32 = bytemuck::cast(libm::acosf(bytemuck::cast(a)));
    r
}

/// Relies on libm's sinf: a deterministic binary32 sine whose result's
/// bits depend on the argument's bits alone.
#[verifier::external_body]
pub(crate) fn sin_f(a: u32) -> (r: u32)
    ensures
        r == sin_bits(a),
{
    let r: u32 = bytemuck::cast(libm::sinf(bytemuck::cast(a)));
    r
}

} // verus!
