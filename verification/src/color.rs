//! A three-channel color of scalars, with the arithmetic the renderer
//! accumulates light with, and the conversion to space-separated
//! 0..255 integer channels for the plain-text image format.

use vstd::prelude::*;

use crate::float::{scalar_cmp, scalar_eq, Float};
use crate::fp::{add_bits, fp_trunc, mul_bits, sub_bits, trunc_bits, B255_BITS, ONE_BITS,
    ZERO_BITS};
use crate::text::{dec_int, i64_dec};

verus! {

/// Component-wise equality of two colors under the epsilon rule.
pub open spec fn color_eq(a: (u64, u64, u64), b: (u64, u64, u64)) -> bool {
    scalar_eq(a.0, b.0) && scalar_eq(a.1, b.1) && scalar_eq(a.2, b.2)
}

/// A channel clamped into [0.0, 1.0] under the library's ordering:
/// strictly below zero becomes zero, strictly above one becomes one,
/// everything else passes through.
pub open spec fn clamp_bits(c: u64) -> u64 {
    if scalar_cmp(c, ZERO_BITS) == Some(core::cmp::Ordering::Less) {
        ZERO_BITS
    } else if scalar_cmp(c, ONE_BITS) == Some(core::cmp::Ordering::Greater) {
        ONE_BITS
    } else {
        c
    }
}

/// A channel made into its output integer: clamped, scaled by 255 and
/// truncated toward zero.
pub open spec fn channel_int(c: u64) -> int {
    trunc_bits(mul_bits(clamp_bits(c), B255_BITS)) as int
}

/// The text of a color: its three output integers in decimal, separated
/// by single spaces.
pub open spec fn color_text(c: (u64, u64, u64)) -> Seq<char> {
    dec_int(channel_int(c.0)) + seq![' '] + dec_int(channel_int(c.1)) + seq![' '] + dec_int(
        channel_int(c.2),
    )
}

/// A color: red, green and blue scalar channels.
#[derive(Debug, Clone, Copy)]
pub struct Color {
    r: Float,
    g: Float,
    b: Float,
}

/// A color already scaled to the 0..255 output range, channel by
/// channel.
#[derive(Debug, Clone, Copy)]
pub struct Color255 {
    r: Float,
    g: Float,
    b: Float,
}

impl View for Color {
    type V = (u64, u64, u64);

    closed spec fn view(&self) -> (u64, u64, u64) {
        (self.r@, self.g@, self.b@)
    }
}

impl Color {
    /// Builds the color (r, g, b).
    pub fn new(r: Float, g: Float, b: Float) -> (c: Color)
        ensures
            c@ == (r@, g@, b@),
    {
        Color { r, g, b }
    }

    /// The red channel.
    pub fn r(&self) -> (r: Float)
        ensures
            r@ == self@.0,
    {
        self.r
    }

    /// The green channel.
    pub fn g(&self) -> (r: Float)
        ensures
            r@ == self@.1,
    {
        self.g
    }

    /// The blue channel.
    pub fn b(&self) -> (r: Float)
        ensures
            r@ == self@.2,
    {
        self.b
    }

    /// Component-wise addition of two colors.
    pub fn add(self, other: Self) -> (r: Self)
        ensures
            r@ == (
                add_bits(self@.0, other@.0),
                add_bits(self@.1, other@.1),
                add_bits(self@.2, other@.2),
            ),
    {
        Color { r: self.r.add(other.r), g: self.g.add(other.g), b: self.b.add(other.b) }
    }

    /// Component-wise subtraction of two colors.
    pub fn sub(self, other: Self) -> (r: Self)
        ensures
            r@ == (
                sub_bits(self@.0, other@.0),
                sub_bits(self@.1, other@.1),
                sub_bits(self@.2, other@.2),
            ),
    {
        Color { r: self.r.sub(other.r), g: self.g.sub(other.g), b: self.b.sub(other.b) }
    }

    /// The component-wise (Hadamard) product of two colors.
    pub fn mul(self, other: Self) -> (r: Self)
        ensures
            r@ == (
                mul_bits(self@.0, other@.0),
                mul_bits(self@.1, other@.1),
                mul_bits(self@.2, other@.2),
            ),
    {
        Color { r: self.r.mul(other.r), g: self.g.mul(other.g), b: self.b.mul(other.b) }
    }

    /// The color scaled by a scalar, channel by channel.
    pub fn scale(self, other: Float) -> (r: Self)
        ensures
            r@ == (mul_bits(self@.0, other@), mul_bits(self@.1, other@), mul_bits(self@.2, other@)),
    {
        Color { r: self.r.mul(other), g: self.g.mul(other), b: self.b.mul(other) }
    }

    /// The output text of the color: each channel clamped into
    /// [0.0, 1.0], scaled to 0..255, truncated, and rendered as three
    /// space-separated decimal integers.
    pub fn to_255(&self) -> (r: String)
        ensures
            r@ == color_text(self@),
    {
        let scale = Float::new(B255_BITS);
        let ri = fp_trunc(clamp_channel(self.r).mul(scale).value());
        let gi = fp_trunc(clamp_channel(self.g).mul(scale).value());
        let bi = fp_trunc(clamp_channel(self.b).mul(scale).value());
        proof {
            reveal_strlit(" ");
        }
        let out = i64_dec(ri).concat(" ").concat(i64_dec(gi).as_str()).concat(" ").concat(
            i64_dec(bi).as_str(),
        );
        proof {
            assert(" "@ =~= seq![' ']);
        }
        out
    }
}

/// Clamps one channel into [0.0, 1.0], exactly as `clamp_bits` states
/// it.
fn clamp_channel(c: Float) -> (r: Float)
    ensures
        r@ == clamp_bits(c@),
{
    if c < Float::new(ZERO_BITS) {
        Float::new(ZERO_BITS)
    } else if c > Float::new(ONE_BITS) {
        Float::new(ONE_BITS)
    } else {
        c
    }
}

impl PartialEq for Color {
    /// All three channels equal under the epsilon rule.
    fn eq(&self, other: &Self) -> (r: bool)
        ensures
            r == color_eq(self@, other@),
    {
        self.r == other.r && self.g == other.g && self.b == other.b
    }
}

impl vstd::std_specs::cmp::PartialEqSpecImpl for Color {
    open spec fn obeys_eq_spec() -> bool {
        true
    }

    open spec fn eq_spec(&self, other: &Color) -> bool {
        color_eq(self@, other@)
    }
}

} // verus!
