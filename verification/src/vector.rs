//! A direction in space: a tuple whose tag is fixed to exactly 0.0,
//! with magnitude, normalization, dot product and cross product.

use vstd::prelude::*;

use crate::float::{scalar_eq, Float};
use crate::fp::{
    abs_bits, add_bits, div_bits, is_finite_bits, lemma_zero_one_finite, mul_bits, sub_bits,
    ZERO_BITS,
};
use crate::sqrt::sqrt_bits;
use crate::tuple::Tuple;

verus! {

/// Component-wise equality of two vectors under the epsilon rule.
pub open spec fn vector_eq(a: (u64, u64, u64), b: (u64, u64, u64)) -> bool {
    scalar_eq(a.0, b.0) && scalar_eq(a.1, b.1) && scalar_eq(a.2, b.2)
}

/// All three components are finite.
pub open spec fn vector_finite(a: (u64, u64, u64)) -> bool {
    is_finite_bits(a.0) && is_finite_bits(a.1) && is_finite_bits(a.2)
}

/// The Euclidean norm: the square root of the left-to-right sum of the
/// squared components.
pub open spec fn magnitude_bits(a: (u64, u64, u64)) -> u64 {
    sqrt_bits(add_bits(add_bits(mul_bits(a.0, a.0), mul_bits(a.1, a.1)), mul_bits(a.2, a.2)))
}

/// The dot product: the left-to-right sum of the pairwise products.
pub open spec fn dot_bits(a: (u64, u64, u64), b: (u64, u64, u64)) -> u64 {
    add_bits(add_bits(mul_bits(a.0, b.0), mul_bits(a.1, b.1)), mul_bits(a.2, b.2))
}

/// The right-handed 3D cross product.
pub open spec fn cross_bits(a: (u64, u64, u64), b: (u64, u64, u64)) -> (u64, u64, u64) {
    (
        sub_bits(mul_bits(a.1, b.2), mul_bits(a.2, b.1)),
        sub_bits(mul_bits(a.2, b.0), mul_bits(a.0, b.2)),
        sub_bits(mul_bits(a.0, b.1), mul_bits(a.1, b.0)),
    )
}

/// A vector: a tuple carrying the tag 0.0.
#[derive(Debug)]
pub struct Vector {
    t: Tuple,
}

impl View for Vector {
    type V = (u64, u64, u64);

    closed spec fn view(&self) -> (u64, u64, u64) {
        (self.t@.0, self.t@.1, self.t@.2)
    }
}

impl Vector {
    /// A vector always carries the exact 0.0 tag.
    #[verifier::type_invariant]
    spec fn tagged(self) -> bool {
        self.t@.3 == ZERO_BITS
    }

    /// Builds the vector (x, y, z); the 0.0 tag is supplied here, so
    /// the underlying tuple construction cannot fail.
    pub fn new(x: Float, y: Float, z: Float) -> (r: Vector)
        ensures
            r@ == (x@, y@, z@),
    {
        proof {
            lemma_zero_one_finite();
        }
        Vector { t: Tuple::new(x, y, z, Float::new(ZERO_BITS)).unwrap() }
    }

    /// The first component.
    pub fn x(&self) -> (r: Float)
        ensures
            r@ == self@.0,
    {
        self.t.x()
    }

    /// The second component.
    pub fn y(&self) -> (r: Float)
        ensures
            r@ == self@.1,
    {
        self.t.y()
    }

    /// The third component.
    pub fn z(&self) -> (r: Float)
        ensures
            r@ == self@.2,
    {
        self.t.z()
    }

    /// The Euclidean norm of the vector.
    pub fn magnitude(&self) -> (r: Float)
        ensures
            r@ == magnitude_bits(self@),
    {
        self.x().mul(self.x()).add(self.y().mul(self.y())).add(
            self.z().mul(self.z()),
        ).sqrt()
    }

    /// The vector scaled to unit length: each component divided by the
    /// magnitude.  A zero vector divides by zero and inherits the IEEE
    /// behaviour of that division; it is not guarded.
    pub fn normalize(&self) -> (r: Vector)
        ensures
            r@ == (
                div_bits(self@.0, magnitude_bits(self@)),
                div_bits(self@.1, magnitude_bits(self@)),
                div_bits(self@.2, magnitude_bits(self@)),
            ),
    {
        let magnitude = self.magnitude();
        Vector::new(
            self.x().div(magnitude),
            self.y().div(magnitude),
            self.z().div(magnitude),
        )
    }

    /// The dot product of the two vectors.  On vectors free of NaN
    /// components it is commutative.
    pub fn dot(&self, other: Self) -> (r: Float)
        ensures
            r@ == dot_bits(self@, other@),
            vector_finite(self@) && vector_finite(other@) ==> r@ == dot_bits(other@, self@),
    {
        self.x().mul(other.x()).add(self.y().mul(other.y())).add(self.z().mul(other.z()))
    }

    /// The right-handed cross product of the two vectors.  On finite
    /// vectors it is anti-commutative: each component of the result has
    /// exactly the magnitude of the matching component of the cross
    /// product taken in the other order.
    pub fn cross(&self, other: &Vector) -> (r: Vector)
        ensures
            r@ == cross_bits(self@, other@),
            vector_finite(self@) && vector_finite(other@) ==> abs_bits(r@.0) == abs_bits(
                cross_bits(other@, self@).0,
            ) && abs_bits(r@.1) == abs_bits(cross_bits(other@, self@).1) && abs_bits(r@.2)
                == abs_bits(cross_bits(other@, self@).2),
    {
        Vector::new(
            self.y().mul(other.z()).sub(self.z().mul(other.y())),
            self.z().mul(other.x()).sub(self.x().mul(other.z())),
            self.x().mul(other.y()).sub(self.y().mul(other.x())),
        )
    }

    /// Component-wise addition of two directions.  The two 0.0 tags add
    /// to a 0.0 tag, so the tuple addition cannot fail.
    pub fn add(self, other: Self) -> (r: Vector)
        ensures
            r@ == (
                add_bits(self@.0, other@.0),
                add_bits(self@.1, other@.1),
                add_bits(self@.2, other@.2),
            ),
    {
        proof {
            use_type_invariant(&self);
            use_type_invariant(&other);
        }
        let result = self.t.add(other.t).unwrap();
        Vector { t: result }
    }

    /// Component-wise subtraction of two directions.  The two 0.0 tags
    /// cancel to a 0.0 tag, so the tuple subtraction cannot fail.
    pub fn sub(self, other: Self) -> (r: Vector)
        ensures
            r@ == (
                sub_bits(self@.0, other@.0),
                sub_bits(self@.1, other@.1),
                sub_bits(self@.2, other@.2),
            ),
    {
        proof {
            use_type_invariant(&self);
            use_type_invariant(&other);
        }
        let result = self.t.sub(other.t).unwrap();
        Vector { t: result }
    }

    /// The vector scaled by a scalar, component by component.
    pub fn mul(self, other: Float) -> (r: Vector)
        ensures
            r@ == (mul_bits(self@.0, other@), mul_bits(self@.1, other@), mul_bits(self@.2, other@)),
    {
        Vector::new(self.x().mul(other), self.y().mul(other), self.z().mul(other))
    }
}

impl PartialEq for Vector {
    /// All three components equal under the epsilon rule.  The tags
    /// need no comparison: both are exactly 0.0 by the type invariant,
    /// and equal tags are always epsilon-equal.  Finite vectors whose
    /// components agree in magnitude, whatever their signs, always
    /// compare equal.
    fn eq(&self, other: &Self) -> (r: bool)
        ensures
            r == vector_eq(self@, other@),
            vector_finite(self@) && abs_bits(self@.0) == abs_bits(other@.0) && abs_bits(self@.1)
                == abs_bits(other@.1) && abs_bits(self@.2) == abs_bits(other@.2) ==> r,
    {
        self.x() == other.x() && self.y() == other.y() && self.z() == other.z()
    }
}

impl vstd::std_specs::cmp::PartialEqSpecImpl for Vector {
    open spec fn obeys_eq_spec() -> bool {
        true
    }

    open spec fn eq_spec(&self, other: &Vector) -> bool {
        vector_eq(self@, other@)
    }
}

/// The anti-commutativity law of the cross product: for finite vectors
/// whose cross product is itself finite, crossing in one order equals
/// the negation of crossing in the other order, under the library's
/// magnitude equality.
pub fn cross_anticommutes(a: &Vector, b: &Vector) -> (r: bool)
    ensures
        vector_finite(a@) && vector_finite(b@) && vector_finite(cross_bits(a@, b@)) ==> r,
{
    let c1 = a.cross(b);
    let c2 = b.cross(a);
    let n2 = Vector::new(c2.x().neg(), c2.y().neg(), c2.z().neg());
    proof {
        crate::float::lemma_abs_neg(c2@.0);
        crate::float::lemma_abs_neg(c2@.1);
        crate::float::lemma_abs_neg(c2@.2);
    }
    c1 == n2
}

} // verus!
