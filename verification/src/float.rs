//! The tolerance-compared scalar that the whole geometry is built on.
//!
//! A `Float` carries the bit pattern of an IEEE-754 double.  Equality is
//! deliberately a magnitude comparison: two scalars are equal when the
//! absolute values of their absolute parts differ by at most the machine
//! epsilon, so values of equal magnitude and opposite sign compare equal.
//! Ordering tests equality first; a pair that is equal under the epsilon
//! rule is neither less than nor greater than the other.

use vstd::prelude::*;

use crate::fp::{
    abs_bits, add_bits, div_bits, float_le_bits, float_lt_bits, is_finite_bits, is_nan_bits,
    mul_bits, neg_bits, sub_bits, EPSILON_BITS, MAG_MASK, SIGN_MASK, ZERO_BITS,
};
use crate::fp::{fp_add, fp_div, fp_le, fp_lt, fp_mul, fp_sub};
use crate::sqrt::{fp_sqrt, sqrt_bits};

verus! {

/// The epsilon rule: the magnitudes of the two scalars differ by at most
/// the machine epsilon.  This is what `==` on scalars means everywhere in
/// the library.
pub open spec fn scalar_eq(a: u64, b: u64) -> bool {
    float_le_bits(abs_bits(sub_bits(abs_bits(a), abs_bits(b))), EPSILON_BITS)
}

/// The strict order derived from the epsilon rule: below in the IEEE
/// signed order and not equal under the epsilon rule.
pub open spec fn scalar_lt(a: u64, b: u64) -> bool {
    !scalar_eq(a, b) && float_lt_bits(a, b)
}

/// The ordering derived from the epsilon rule: equal first, then the IEEE
/// signed order, and everything that is neither is greater.  The result is
/// always `Some`.
pub open spec fn scalar_cmp(a: u64, b: u64) -> Option<core::cmp::Ordering> {
    if scalar_eq(a, b) {
        Some(core::cmp::Ordering::Equal)
    } else if float_lt_bits(a, b) {
        Some(core::cmp::Ordering::Less)
    } else {
        Some(core::cmp::Ordering::Greater)
    }
}

/// A scalar: one double-precision value, held as its bit pattern.
#[derive(Debug, Copy, Clone)]
pub struct Float {
    bits: u64,
}

impl View for Float {
    type V = u64;

    closed spec fn view(&self) -> u64 {
        self.bits
    }
}

impl Float {
    /// Wraps a bit pattern as a scalar.
    pub fn new(value: u64) -> (r: Float)
        ensures
            r@ == value,
    {
        Float { bits: value }
    }

    /// The bit pattern of the scalar.
    pub fn value(&self) -> (r: u64)
        ensures
            r == self@,
    {
        self.bits
    }

    /// The sum of the two scalars.  Addition of non-NaN scalars is
    /// commutative, and the sum of two positive zeroes is a positive
    /// zero.
    pub fn add(self, other: Self) -> (r: Self)
        ensures
            r@ == add_bits(self@, other@),
            !is_nan_bits(self@) && !is_nan_bits(other@) ==> r@ == add_bits(other@, self@),
            self@ == ZERO_BITS && other@ == ZERO_BITS ==> r@ == ZERO_BITS,
    {
        Float { bits: fp_add(self.bits, other.bits) }
    }

    /// The difference of the two scalars.  For non-NaN operands the
    /// difference taken the other way round has the same magnitude, and
    /// the difference of a finite scalar from itself is a positive zero.
    pub fn sub(self, other: Self) -> (r: Self)
        ensures
            r@ == sub_bits(self@, other@),
            !is_nan_bits(self@) && !is_nan_bits(other@) ==> abs_bits(r@) == abs_bits(
                sub_bits(other@, self@),
            ),
            self@ == other@ && is_finite_bits(self@) ==> r@ == ZERO_BITS,
    {
        Float { bits: fp_sub(self.bits, other.bits) }
    }

    /// The product of the two scalars.  Multiplication of non-NaN
    /// scalars is commutative, and a product of finite scalars is never
    /// a NaN.
    pub fn mul(self, other: Self) -> (r: Self)
        ensures
            r@ == mul_bits(self@, other@),
            !is_nan_bits(self@) && !is_nan_bits(other@) ==> r@ == mul_bits(other@, self@),
            is_finite_bits(self@) && is_finite_bits(other@) ==> !is_nan_bits(r@),
    {
        Float { bits: fp_mul(self.bits, other.bits) }
    }

    /// The quotient of the two scalars.
    pub fn div(self, other: Self) -> (r: Self)
        ensures
            r@ == div_bits(self@, other@),
    {
        Float { bits: fp_div(self.bits, other.bits) }
    }

    /// The scalar with its sign flipped.
    pub fn neg(self) -> (r: Self)
        ensures
            r@ == neg_bits(self@),
    {
        Float { bits: self.bits ^ SIGN_MASK }
    }

    /// The square root of the scalar.
    pub fn sqrt(&self) -> (r: Self)
        ensures
            r@ == sqrt_bits(self@),
    {
        Float { bits: fp_sqrt(self.bits) }
    }
}

impl PartialEq for Float {
    /// The epsilon rule, plus the law it was written for: two finite
    /// scalars of equal magnitude always compare equal, whatever their
    /// signs.
    fn eq(&self, other: &Self) -> (r: bool)
        ensures
            r == scalar_eq(self@, other@),
            is_finite_bits(self@) && abs_bits(self@) == abs_bits(other@) ==> r,
    {
        let aa = self.bits & MAG_MASK;
        let bb = other.bits & MAG_MASK;
        proof {
            lemma_abs_finite(self.bits);
        }
        let d = fp_sub(aa, bb);
        let dd = d & MAG_MASK;
        proof {
            if is_finite_bits(self.bits) && abs_bits(self.bits) == abs_bits(other.bits) {
                lemma_zero_le_epsilon();
                assert(0u64 & 0x7fff_ffff_ffff_ffffu64 == 0u64) by (bit_vector);
            }
        }
        fp_le(dd, EPSILON_BITS)
    }
}

impl vstd::std_specs::cmp::PartialEqSpecImpl for Float {
    open spec fn obeys_eq_spec() -> bool {
        true
    }

    open spec fn eq_spec(&self, other: &Float) -> bool {
        scalar_eq(self@, other@)
    }
}

impl PartialOrd for Float {
    /// Equality first, then the IEEE signed order; everything that is
    /// neither equal nor below is reported greater, so the result is
    /// always `Some`.
    fn partial_cmp(&self, other: &Self) -> (r: Option<core::cmp::Ordering>)
        ensures
            r == scalar_cmp(self@, other@),
    {
        if self == other {
            Some(core::cmp::Ordering::Equal)
        } else if fp_lt(self.bits, other.bits) {
            Some(core::cmp::Ordering::Less)
        } else {
            Some(core::cmp::Ordering::Greater)
        }
    }
}

impl vstd::std_specs::cmp::PartialOrdSpecImpl for Float {
    open spec fn obeys_partial_cmp_spec() -> bool {
        true
    }

    open spec fn partial_cmp_spec(&self, other: &Float) -> Option<core::cmp::Ordering> {
        scalar_cmp(self@, other@)
    }
}

/// Clearing the sign bit leaves the magnitude bits unchanged.
pub proof fn lemma_abs_idempotent(a: u64)
    ensures
        abs_bits(abs_bits(a)) == abs_bits(a),
{
    assert((a & 0x7fff_ffff_ffff_ffffu64) & 0x7fff_ffff_ffff_ffffu64 == a
        & 0x7fff_ffff_ffff_ffffu64) by (bit_vector);
}

/// Negation flips only the sign bit: the magnitude of a scalar and of its
/// negation are the same bits.  Together with the equality law on
/// `Float::eq` this says that a finite scalar always equals its negation.
pub proof fn lemma_abs_neg(a: u64)
    ensures
        abs_bits(neg_bits(a)) == abs_bits(a),
{
    assert((a ^ 0x8000_0000_0000_0000u64) & 0x7fff_ffff_ffff_ffffu64 == a
        & 0x7fff_ffff_ffff_ffffu64) by (bit_vector);
}

/// The absolute part of a finite pattern is finite, and taking it twice
/// changes nothing.
proof fn lemma_abs_finite(a: u64)
    ensures
        is_finite_bits(a) ==> is_finite_bits(abs_bits(a)),
        abs_bits(abs_bits(a)) == abs_bits(a),
{
    assert((a & 0x7fff_ffff_ffff_ffffu64) & 0x7ff0_0000_0000_0000u64 == a
        & 0x7ff0_0000_0000_0000u64) by (bit_vector);
    lemma_abs_idempotent(a);
}

/// +0.0 is at most the machine epsilon in the IEEE order.
proof fn lemma_zero_le_epsilon()
    ensures
        float_le_bits(0u64, EPSILON_BITS),
{
    assert(0u64 & 0x7ff0_0000_0000_0000u64 != 0x7ff0_0000_0000_0000u64) by (bit_vector);
    assert(0x3cb0_0000_0000_0000u64 & 0x7ff0_0000_0000_0000u64 != 0x7ff0_0000_0000_0000u64)
        by (bit_vector);
    assert(0u64 & 0x8000_0000_0000_0000u64 == 0x3cb0_0000_0000_0000u64
        & 0x8000_0000_0000_0000u64) by (bit_vector);
    assert(0u64 & 0x8000_0000_0000_0000u64 == 0u64) by (bit_vector);
    assert(0u64 < 0x3cb0_0000_0000_0000u64) by (bit_vector);
}

} // verus!
