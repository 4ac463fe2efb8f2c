//! Bit-level model of IEEE-754 double-precision scalars.
//!
//! A scalar is carried as its 64-bit pattern.  Sign manipulation and
//! comparisons are exact bit logic and are verified here; the inexact
//! operations (add, sub, mul, div, truncation to integer) are performed
//! by `rustc_apfloat` and are only named, not interpreted.  The square
//! root, which that crate does not offer, is verified library code in
//! its own module.

use vstd::prelude::*;

use rustc_apfloat::Float as ApFloat;
use rustc_apfloat::Round;
use rustc_apfloat::ieee::Double;

verus! {

/// Mask of the sign bit of a double.
pub const SIGN_MASK: u64 = 0x8000_0000_0000_0000;

/// Mask of everything but the sign bit.
pub const MAG_MASK: u64 = 0x7fff_ffff_ffff_ffff;

/// Mask of the exponent field.
pub const EXP_MASK: u64 = 0x7ff0_0000_0000_0000;

/// Mask of the fraction field.
pub const FRAC_MASK: u64 = 0x000f_ffff_ffff_ffff;

/// Bit pattern of +0.0.
pub const ZERO_BITS: u64 = 0x0000_0000_0000_0000;

/// Bit pattern of 1.0.
pub const ONE_BITS: u64 = 0x3ff0_0000_0000_0000;

/// Bit pattern of 255.0.
pub const B255_BITS: u64 = 0x406f_e000_0000_0000;

/// Bit pattern of the machine epsilon of a double, 2^-52.
pub const EPSILON_BITS: u64 = 0x3cb0_0000_0000_0000;

/// The pattern with the sign bit cleared: the absolute value.
pub open spec fn abs_bits(a: u64) -> u64 {
    a & MAG_MASK
}

/// The pattern with the sign bit flipped: the negated value.
pub open spec fn neg_bits(a: u64) -> u64 {
    a ^ SIGN_MASK
}

/// A pattern whose exponent field is saturated and whose fraction is
/// non-zero encodes a NaN.
pub open spec fn is_nan_bits(a: u64) -> bool {
    a & EXP_MASK == EXP_MASK && a & FRAC_MASK != 0
}

/// A pattern whose exponent field is not saturated encodes a finite value.
pub open spec fn is_finite_bits(a: u64) -> bool {
    a & EXP_MASK != EXP_MASK
}

/// IEEE equality of two doubles given by their patterns: NaN equals
/// nothing, the two zeroes are equal, everything else goes by pattern.
pub open spec fn float_eq_bits(a: u64, b: u64) -> bool {
    &&& !is_nan_bits(a)
    &&& !is_nan_bits(b)
    &&& (a == b || (abs_bits(a) == 0 && abs_bits(b) == 0))
}

/// IEEE `<` of two doubles given by their patterns.  For equal signs the
/// magnitude order is the unsigned order of the patterns, reversed on the
/// negative side; NaN is below nothing and the two zeroes are equal.
pub open spec fn float_lt_bits(a: u64, b: u64) -> bool {
    &&& !is_nan_bits(a)
    &&& !is_nan_bits(b)
    &&& if a & SIGN_MASK != b & SIGN_MASK {
        a & SIGN_MASK != 0 && !(abs_bits(a) == 0 && abs_bits(b) == 0)
    } else if a & SIGN_MASK == 0 {
        a < b
    } else {
        b < a
    }
}

/// IEEE `<=` of two doubles given by their patterns.
pub open spec fn float_le_bits(a: u64, b: u64) -> bool {
    float_lt_bits(a, b) || float_eq_bits(a, b)
}

/// Computes IEEE `<` on two patterns, exactly as `float_lt_bits` states it.
pub(crate) fn fp_lt(a: u64, b: u64) -> (r: bool)
    ensures
        r == float_lt_bits(a, b),
{
    let a_nan: bool = a & EXP_MASK == EXP_MASK && a & FRAC_MASK != 0;
    let b_nan: bool = b & EXP_MASK == EXP_MASK && b & FRAC_MASK != 0;
    if a_nan || b_nan {
        false
    } else if a & SIGN_MASK != b & SIGN_MASK {
        a & SIGN_MASK != 0 && !(a & MAG_MASK == 0 && b & MAG_MASK == 0)
    } else if a & SIGN_MASK == 0 {
        a < b
    } else {
        b < a
    }
}

/// Computes IEEE `==` on two patterns, exactly as `float_eq_bits` states it.
pub(crate) fn fp_eq(a: u64, b: u64) -> (r: bool)
    ensures
        r == float_eq_bits(a, b),
{
    let a_nan: bool = a & EXP_MASK == EXP_MASK && a & FRAC_MASK != 0;
    let b_nan: bool = b & EXP_MASK == EXP_MASK && b & FRAC_MASK != 0;
    !a_nan && !b_nan && (a == b || (a & MAG_MASK == 0 && b & MAG_MASK == 0))
}

/// Computes IEEE `<=` on two patterns, exactly as `float_le_bits` states it.
pub(crate) fn fp_le(a: u64, b: u64) -> (r: bool)
    ensures
        r == float_le_bits(a, b),
{
    fp_lt(a, b) || fp_eq(a, b)
}

/// What the double addition of the two patterns returns, rounded to
/// nearest, ties to even.
pub uninterp spec fn add_bits(a: u64, b: u64) -> u64;

/// What the double subtraction of the two patterns returns, rounded to
/// nearest, ties to even.
pub uninterp spec fn sub_bits(a: u64, b: u64) -> u64;

/// What the double multiplication of the two patterns returns, rounded to
/// nearest, ties to even.
pub uninterp spec fn mul_bits(a: u64, b: u64) -> u64;

/// What the double division of the two patterns returns, rounded to
/// nearest, ties to even.
pub uninterp spec fn div_bits(a: u64, b: u64) -> u64;

/// What the conversion of the pattern to a 64-bit integer, rounding
/// toward zero, returns.
pub uninterp spec fn trunc_bits(a: u64) -> i64;

/// Relies on `rustc_apfloat`'s `Double::add_r` (round to nearest, ties
/// to even): the sum of two doubles.  IEEE addition of non-NaN operands
/// is commutative, bit for bit, and the sum of two positive zeroes is a
/// positive zero.
#[verifier::external_body]
pub(crate) fn fp_add(a: u64, b: u64) -> (r: u64)
    ensures
        r == add_bits(a, b),
        !is_nan_bits(a) && !is_nan_bits(b) ==> r == add_bits(b, a),
        a == ZERO_BITS && b == ZERO_BITS ==> r == ZERO_BITS,
{
    let x = Double::from_bits(a as u128);
    let y = Double::from_bits(b as u128);
    x.add_r(y, Round::NearestTiesToEven).value.to_bits() as u64
}

/// Relies on `rustc_apfloat`'s `Double::sub_r` (round to nearest, ties
/// to even): the difference of two doubles.  For non-NaN operands the
/// difference taken the other way round has the same magnitude, and the
/// difference of a finite value from itself is exactly +0.
#[verifier::external_body]
pub(crate) fn fp_sub(a: u64, b: u64) -> (r: u64)
    ensures
        r == sub_bits(a, b),
        !is_nan_bits(a) && !is_nan_bits(b) ==> abs_bits(r) == abs_bits(sub_bits(b, a)),
        a == b && is_finite_bits(a) ==> r == ZERO_BITS,
{
    let x = Double::from_bits(a as u128);
    let y = Double::from_bits(b as u128);
    x.sub_r(y, Round::NearestTiesToEven).value.to_bits() as u64
}

/// Relies on `rustc_apfloat`'s `Double::mul_r` (round to nearest, ties
/// to even): the product of two doubles.  IEEE multiplication of non-NaN
/// operands is commutative, bit for bit, and a product of finite
/// operands is never a NaN (it can only round to a number or overflow to
/// an infinity).
#[verifier::external_body]
pub(crate) fn fp_mul(a: u64, b: u64) -> (r: u64)
    ensures
        r == mul_bits(a, b),
        !is_nan_bits(a) && !is_nan_bits(b) ==> r == mul_bits(b, a),
        is_finite_bits(a) && is_finite_bits(b) ==> !is_nan_bits(r),
{
    let x = Double::from_bits(a as u128);
    let y = Double::from_bits(b as u128);
    x.mul_r(y, Round::NearestTiesToEven).value.to_bits() as u64
}

/// Relies on `rustc_apfloat`'s `Double::div_r` (round to nearest, ties
/// to even): the quotient of two doubles.
#[verifier::external_body]
pub(crate) fn fp_div(a: u64, b: u64) -> (r: u64)
    ensures
        r == div_bits(a, b),
{
    let x = Double::from_bits(a as u128);
    let y = Double::from_bits(b as u128);
    x.div_r(y, Round::NearestTiesToEven).value.to_bits() as u64
}

/// Relies on `rustc_apfloat`'s `Double::to_i128_r` with a 64-bit target
/// width, rounding toward zero: the double truncated to a 64-bit integer.
#[verifier::external_body]
pub(crate) fn fp_trunc(a: u64) -> (r: i64)
    ensures
        r == trunc_bits(a),
{
    let mut exact = false;
    Double::from_bits(a as u128).to_i128_r(64, Round::TowardZero, &mut exact).value as i64
}

/// The zero and one patterns are finite and are their own absolute
/// parts.
pub proof fn lemma_zero_one_finite()
    ensures
        is_finite_bits(ZERO_BITS),
        is_finite_bits(ONE_BITS),
        abs_bits(ZERO_BITS) == ZERO_BITS,
        abs_bits(ONE_BITS) == ONE_BITS,
{
    assert(0u64 & 0x7ff0_0000_0000_0000u64 != 0x7ff0_0000_0000_0000u64) by (bit_vector);
    assert(0x3ff0_0000_0000_0000u64 & 0x7ff0_0000_0000_0000u64 != 0x7ff0_0000_0000_0000u64)
        by (bit_vector);
    assert(0u64 & 0x7fff_ffff_ffff_ffffu64 == 0u64) by (bit_vector);
    assert(0x3ff0_0000_0000_0000u64 & 0x7fff_ffff_ffff_ffffu64 == 0x3ff0_0000_0000_0000u64)
        by (bit_vector);
}

} // verus!
