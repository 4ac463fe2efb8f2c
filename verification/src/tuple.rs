//! The 4-component algebraic tuple under the homogeneous-coordinate
//! discipline: the fourth component is a validity tag that must equal
//! 0.0 or 1.0 under the epsilon rule, at construction and after every
//! arithmetic operation.

use vstd::prelude::*;

use vstd::string::StringExecFns;

use crate::float::{scalar_eq, scalar_lt, Float};
use crate::fp::{
    abs_bits, add_bits, is_finite_bits, lemma_zero_one_finite, sub_bits, ONE_BITS, ZERO_BITS,
};

verus! {

/// The tag is valid: equal to 0.0 or to 1.0 under the epsilon rule.
pub open spec fn valid_w(w: u64) -> bool {
    scalar_eq(w, ZERO_BITS) || scalar_eq(w, ONE_BITS)
}

/// The tag of a subtraction: forced to 1.0 when the left tag is strictly
/// below the right one (a vector minus a point is a point), the plain
/// difference otherwise.
pub open spec fn sub_w(a: u64, b: u64) -> u64 {
    if scalar_lt(a, b) {
        ONE_BITS
    } else {
        sub_bits(a, b)
    }
}

/// Component-wise equality of two tuples under the epsilon rule.
pub open spec fn tuple_eq(a: (u64, u64, u64, u64), b: (u64, u64, u64, u64)) -> bool {
    scalar_eq(a.0, b.0) && scalar_eq(a.1, b.1) && scalar_eq(a.2, b.2) && scalar_eq(a.3, b.3)
}

/// An ordered 4-tuple (x, y, z, w) of scalars whose tag w is 0.0 or 1.0
/// under the epsilon rule.
#[derive(Debug, Copy, Clone)]
pub struct Tuple {
    x: Float,
    y: Float,
    z: Float,
    w: Float,
}

impl View for Tuple {
    type V = (u64, u64, u64, u64);

    closed spec fn view(&self) -> (u64, u64, u64, u64) {
        (self.x@, self.y@, self.z@, self.w@)
    }
}

impl Tuple {
    /// Builds a tuple after checking the tag; a tag that equals neither
    /// 0.0 nor 1.0 under the epsilon rule is rejected with a descriptive
    /// error.  A finite tag with exactly the magnitude of 0.0 or of 1.0
    /// is always accepted.
    pub fn new(x: Float, y: Float, z: Float, w: Float) -> (r: Result<Tuple, String>)
        ensures
            r is Ok <==> valid_w(w@),
            r matches Ok(t) ==> t@ == (x@, y@, z@, w@),
            r matches Err(m) ==> m@ == "w must be either 1.0 or 0.0"@,
            is_finite_bits(w@) && (abs_bits(w@) == abs_bits(ZERO_BITS) || abs_bits(w@)
                == abs_bits(ONE_BITS)) ==> r is Ok,
    {
        if w != Float::new(ZERO_BITS) && w != Float::new(ONE_BITS) {
            return Err(String::from_str("w must be either 1.0 or 0.0"));
        }
        Ok(Tuple { x, y, z, w })
    }

    /// The first component.
    pub fn x(&self) -> (r: Float)
        ensures
            r@ == self@.0,
    {
        self.x
    }

    /// The second component.
    pub fn y(&self) -> (r: Float)
        ensures
            r@ == self@.1,
    {
        self.y
    }

    /// The third component.
    pub fn z(&self) -> (r: Float)
        ensures
            r@ == self@.2,
    {
        self.z
    }

    /// The tag component.
    pub fn w(&self) -> (r: Float)
        ensures
            r@ == self@.3,
    {
        self.w
    }

    /// Component-wise addition; the sum of the tags must itself be a
    /// valid tag or the result is rejected.  Two zero tags always add to
    /// a zero tag.
    pub fn add(self, other: Self) -> (r: Result<Tuple, String>)
        ensures
            r is Ok <==> valid_w(add_bits(self@.3, other@.3)),
            r matches Ok(t) ==> t@ == (
                add_bits(self@.0, other@.0),
                add_bits(self@.1, other@.1),
                add_bits(self@.2, other@.2),
                add_bits(self@.3, other@.3),
            ),
            r matches Err(m) ==> m@ == "w must be either 1.0 or 0.0"@,
            self@.3 == ZERO_BITS && other@.3 == ZERO_BITS ==> (r matches Ok(t) && t@.3
                == ZERO_BITS),
    {
        proof {
            lemma_zero_one_finite();
        }
        Tuple::new(
            self.x.add(other.x),
            self.y.add(other.y),
            self.z.add(other.z),
            self.w.add(other.w),
        )
    }

    /// Component-wise subtraction with the directional tag rule: when
    /// the left tag is strictly below the right one the result's tag is
    /// forced to 1.0, otherwise it is the plain difference, and either
    /// way it must be a valid tag.  Subtracting equal zero-or-one tags
    /// always succeeds with a zero tag.
    pub fn sub(self, other: Self) -> (r: Result<Tuple, String>)
        ensures
            r is Ok <==> valid_w(sub_w(self@.3, other@.3)),
            r matches Ok(t) ==> t@ == (
                sub_bits(self@.0, other@.0),
                sub_bits(self@.1, other@.1),
                sub_bits(self@.2, other@.2),
                sub_w(self@.3, other@.3),
            ),
            r matches Err(m) ==> m@ == "w must be either 1.0 or 0.0"@,
            self@.3 == other@.3 && (self@.3 == ZERO_BITS || self@.3 == ONE_BITS) ==> (
            r matches Ok(t) && t@.3 == ZERO_BITS),
    {
        proof {
            lemma_zero_one_finite();
        }
        if self.w < other.w {
            return Tuple::new(
                self.x.sub(other.x),
                self.y.sub(other.y),
                self.z.sub(other.z),
                Float::new(ONE_BITS),
            );
        }
        Tuple::new(
            self.x.sub(other.x),
            self.y.sub(other.y),
            self.z.sub(other.z),
            self.w.sub(other.w),
        )
    }
}

impl PartialEq for Tuple {
    /// All four components equal under the epsilon rule.
    fn eq(&self, other: &Self) -> (r: bool)
        ensures
            r == tuple_eq(self@, other@),
    {
        self.x == other.x && self.y == other.y && self.z == other.z && self.w == other.w
    }
}

impl vstd::std_specs::cmp::PartialEqSpecImpl for Tuple {
    open spec fn obeys_eq_spec() -> bool {
        true
    }

    open spec fn eq_spec(&self, other: &Tuple) -> bool {
        tuple_eq(self@, other@)
    }
}

} // verus!
