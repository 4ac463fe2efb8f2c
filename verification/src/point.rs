//! A position in space: a tuple whose tag is fixed to exactly 1.0.

use vstd::prelude::*;

use crate::float::{scalar_eq, Float};
use crate::fp::{lemma_zero_one_finite, sub_bits, ONE_BITS};
use crate::tuple::Tuple;
use crate::vector::Vector;

verus! {

/// Component-wise equality of two points under the epsilon rule.
pub open spec fn point_eq(a: (u64, u64, u64), b: (u64, u64, u64)) -> bool {
    scalar_eq(a.0, b.0) && scalar_eq(a.1, b.1) && scalar_eq(a.2, b.2)
}

/// A point: a tuple carrying the tag 1.0.
#[derive(Debug)]
pub struct Point {
    t: Tuple,
}

impl View for Point {
    type V = (u64, u64, u64);

    closed spec fn view(&self) -> (u64, u64, u64) {
        (self.t@.0, self.t@.1, self.t@.2)
    }
}

impl Point {
    /// A point always carries the exact 1.0 tag.
    #[verifier::type_invariant]
    spec fn tagged(self) -> bool {
        self.t@.3 == ONE_BITS
    }

    /// Builds the point (x, y, z); the 1.0 tag is supplied here, so the
    /// underlying tuple construction cannot fail.
    pub fn new(x: Float, y: Float, z: Float) -> (r: Point)
        ensures
            r@ == (x@, y@, z@),
    {
        proof {
            lemma_zero_one_finite();
        }
        Point { t: Tuple::new(x, y, z, Float::new(ONE_BITS)).unwrap() }
    }

    /// The first coordinate.
    pub fn x(&self) -> (r: Float)
        ensures
            r@ == self@.0,
    {
        self.t.x()
    }

    /// The second coordinate.
    pub fn y(&self) -> (r: Float)
        ensures
            r@ == self@.1,
    {
        self.t.y()
    }

    /// The third coordinate.
    pub fn z(&self) -> (r: Float)
        ensures
            r@ == self@.2,
    {
        self.t.z()
    }

    /// The difference of two positions is a direction: point minus point
    /// yields the vector of component-wise differences.  The two 1.0
    /// tags cancel to the 0.0 tag, so the tuple subtraction cannot fail;
    /// its tag is discarded and the vector is rebuilt from x, y, z.
    pub fn sub(self, other: Self) -> (r: Vector)
        ensures
            r@ == (
                sub_bits(self@.0, other@.0),
                sub_bits(self@.1, other@.1),
                sub_bits(self@.2, other@.2),
            ),
    {
        proof {
            use_type_invariant(&self);
            use_type_invariant(&other);
        }
        let result = self.t.sub(other.t).unwrap();
        Vector::new(result.x(), result.y(), result.z())
    }

    /// Translating a position back along a direction: point minus
    /// vector yields the point of component-wise differences.
    pub fn sub_vector(self, other: Vector) -> (r: Point)
        ensures
            r@ == (
                sub_bits(self@.0, other@.0),
                sub_bits(self@.1, other@.1),
                sub_bits(self@.2, other@.2),
            ),
    {
        Point::new(
            self.x().sub(other.x()),
            self.y().sub(other.y()),
            self.z().sub(other.z()),
        )
    }
}

impl PartialEq for Point {
    /// All three coordinates equal under the epsilon rule.  The tags
    /// need no comparison: both are exactly 1.0 by the type invariant,
    /// and equal tags are always epsilon-equal.
    fn eq(&self, other: &Self) -> (r: bool)
        ensures
            r == point_eq(self@, other@),
    {
        self.x() == other.x() && self.y() == other.y() && self.z() == other.z()
    }
}

impl vstd::std_specs::cmp::PartialEqSpecImpl for Point {
    open spec fn obeys_eq_spec() -> bool {
        true
    }

    open spec fn eq_spec(&self, other: &Point) -> bool {
        point_eq(self@, other@)
    }
}

} // verus!
