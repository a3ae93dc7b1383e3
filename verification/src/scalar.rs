//! IEEE-754 binary64 scalars, represented by their bit patterns.
//!
//! A scalar is a `u64` holding the bits of a binary64 value: one sign bit,
//! eleven exponent bits, fifty-two significand bits. The predicates below
//! read that representation directly and are verified; in particular
//! `float_eq` is IEEE-754 equality written out on bits (NaN equals nothing,
//! the two zeros equal each other, every other value has a unique pattern).
//! The rounding arithmetic itself cannot be restated in a few lines, so each
//! operation is named by an uninterpreted function (`add_bits`, ...) and
//! performed by a software IEEE-754 implementation behind a trusted wrapper.

use vstd::prelude::*;

use const_soft_float::soft_f64::SoftF64;
use rustc_apfloat::ieee::Double;
use rustc_apfloat::Float as ApFloat;

verus! {

/// Mask of the sign bit of a binary64 pattern.
pub const SIGN_MASK: u64 = 0x8000_0000_0000_0000;

/// Mask of the eleven exponent bits of a binary64 pattern.
pub const EXP_MASK: u64 = 0x7FF0_0000_0000_0000;

/// Mask of the fifty-two significand bits of a binary64 pattern.
pub const FRAC_MASK: u64 = 0x000F_FFFF_FFFF_FFFF;

/// The pattern is a NaN: exponent all ones, significand not zero.
pub open spec fn is_nan_bits(b: u64) -> bool {
    b & EXP_MASK == EXP_MASK && b & FRAC_MASK != 0
}

/// The pattern is an exact zero, of either sign.
pub open spec fn is_zero_bits(b: u64) -> bool {
    b == 0 || b == SIGN_MASK
}

/// The pattern is neither a NaN nor an infinity.
pub open spec fn is_finite_bits(b: u64) -> bool {
    b & EXP_MASK != EXP_MASK
}

/// The pattern of the negated value: the sign bit flipped.
pub open spec fn neg_bits(b: u64) -> u64 {
    b ^ SIGN_MASK
}

/// IEEE-754 equality on binary64 patterns: a NaN equals nothing, positive
/// and negative zero equal each other, and every remaining value is held by
/// exactly one pattern, so the patterns themselves decide.
pub open spec fn float_eq(a: u64, b: u64) -> bool {
    if is_nan_bits(a) || is_nan_bits(b) {
        false
    } else if is_zero_bits(a) && is_zero_bits(b) {
        true
    } else {
        a == b
    }
}

/// Whether the pattern is a NaN.
pub fn is_nan(b: u64) -> (r: bool)
    ensures
        r == is_nan_bits(b),
{
    b & EXP_MASK == EXP_MASK && b & FRAC_MASK != 0
}

/// Whether the pattern is an exact zero of either sign.
pub fn is_zero(b: u64) -> (r: bool)
    ensures
        r == is_zero_bits(b),
{
    b == 0 || b == SIGN_MASK
}

/// IEEE-754 equality of two binary64 patterns.
pub fn scalar_eq(a: u64, b: u64) -> (r: bool)
    ensures
        r == float_eq(a, b),
{
    if is_nan(a) || is_nan(b) {
        false
    } else if is_zero(a) && is_zero(b) {
        true
    } else {
        a == b
    }
}

/// The pattern of the negated value.
pub fn scalar_neg(b: u64) -> (r: u64)
    ensures
        r == neg_bits(b),
{
    b ^ SIGN_MASK
}

/// The binary64 sum of the two patterns, rounded to nearest, ties to even.
pub uninterp spec fn add_bits(a: u64, b: u64) -> u64;

/// The binary64 difference of the two patterns, rounded to nearest, ties to
/// even.
pub uninterp spec fn sub_bits(a: u64, b: u64) -> u64;

/// The binary64 product of the two patterns, rounded to nearest, ties to
/// even.
pub uninterp spec fn mul_bits(a: u64, b: u64) -> u64;

/// The binary64 quotient of the two patterns, rounded to nearest, ties to
/// even.
pub uninterp spec fn div_bits(a: u64, b: u64) -> u64;

/// The binary64 square root of the pattern, rounded to nearest, ties to
/// even.
pub uninterp spec fn sqrt_bits(b: u64) -> u64;

/// The decimal text of the value held by the pattern.
pub uninterp spec fn text_of(b: u64) -> Seq<char>;

/// Relies on `rustc_apfloat`'s binary64 addition (`ieee::Double`, round to
/// nearest, ties to even), a pure function of the two patterns. Per
/// IEEE-754 the sum does not depend on the order of the operands when
/// neither is a NaN, and the sum of two positive zeros is positive zero.
#[verifier::external_body]
pub(crate) fn fadd(a: u64, b: u64) -> (r: u64)
    ensures
        r == add_bits(a, b),
        !is_nan_bits(a) && !is_nan_bits(b) ==> r == add_bits(b, a),
        a == 0 && b == 0 ==> r == 0,
{
    (Double::from_bits(a as u128) + Double::from_bits(b as u128)).value.to_bits() as u64
}

/// Relies on `rustc_apfloat`'s binary64 subtraction (`ieee::Double`, round
/// to nearest, ties to even), a pure function of the two patterns. Per
/// IEEE-754, when neither operand is a NaN: `a - b` and `-(b - a)` are the
/// same value where the difference is not a NaN (they may differ in the
/// sign of an exact zero); the two differences have equal magnitudes, so
/// their squares are the same pattern; and the difference of a finite
/// pattern from itself is positive zero.
#[verifier::external_body]
pub(crate) fn fsub(a: u64, b: u64) -> (r: u64)
    ensures
        r == sub_bits(a, b),
        !is_nan_bits(a) && !is_nan_bits(b) && !is_nan_bits(sub_bits(a, b)) ==> float_eq(
            r,
            neg_bits(sub_bits(b, a)),
        ),
        !is_nan_bits(a) && !is_nan_bits(b) ==> mul_bits(r, r) == mul_bits(
            sub_bits(b, a),
            sub_bits(b, a),
        ),
        a == b && is_finite_bits(a) ==> r == 0,
{
    (Double::from_bits(a as u128) - Double::from_bits(b as u128)).value.to_bits() as u64
}

/// Relies on `rustc_apfloat`'s binary64 multiplication (`ieee::Double`,
/// round to nearest, ties to even), a pure function of the two patterns.
/// Per IEEE-754 the product does not depend on the order of the operands
/// when neither is a NaN, and the product of two positive zeros is positive
/// zero.
#[verifier::external_body]
pub(crate) fn fmul(a: u64, b: u64) -> (r: u64)
    ensures
        r == mul_bits(a, b),
        !is_nan_bits(a) && !is_nan_bits(b) ==> r == mul_bits(b, a),
        a == 0 && b == 0 ==> r == 0,
{
    (Double::from_bits(a as u128) * Double::from_bits(b as u128)).value.to_bits() as u64
}

/// Relies on `rustc_apfloat`'s binary64 division (`ieee::Double`, round to
/// nearest, ties to even), a pure function of the two patterns. It never
/// panics; a zero divisor yields an infinity or a NaN per IEEE-754, so the
/// callers in this crate test the divisor first.
#[verifier::external_body]
pub(crate) fn fdiv(a: u64, b: u64) -> (r: u64)
    ensures
        r == div_bits(a, b),
{
    (Double::from_bits(a as u128) / Double::from_bits(b as u128)).value.to_bits() as u64
}

/// Relies on `const_soft_float`'s binary64 square root (`SoftF64::sqrt`,
/// the bit-by-bit fdlibm algorithm, correctly rounded to nearest, ties to
/// even), a pure function of the pattern. Per IEEE-754 the square root of
/// positive zero is positive zero.
#[verifier::external_body]
pub(crate) fn fsqrt(b: u64) -> (r: u64)
    ensures
        r == sqrt_bits(b),
        b == 0 ==> r == 0,
{
    SoftF64::from_bits(b).sqrt().to_bits()
}

/// Relies on `rustc_apfloat`'s decimal formatting (`ieee::Double`'s
/// `Display`), a pure function of the pattern.
#[verifier::external_body]
pub(crate) fn ftext(b: u64) -> (r: String)
    ensures
        r@ == text_of(b),
{
    format!("{}", Double::from_bits(b as u128))
}

} // verus!
