//! The square root of a double, as verified library code.
//!
//! The outside float crate offers no square root, so this one is computed
//! from the bit pattern: the significand is normalized, scaled so that the
//! exponent of the radicand is even, and the integer square root of the
//! scaled significand is taken and rounded to nearest.  A tie is
//! impossible (the root of an integer is never exactly halfway between
//! two integers), so the result is the correctly rounded root: the same
//! pattern that a conforming hardware unit returns.

use vstd::prelude::*;

use vstd::arithmetic::power2::{lemma2_to64, lemma2_to64_rest, lemma_pow2_adds, lemma_pow2_strictly_increases, pow2};

use crate::fp::{is_nan_bits, EXP_MASK, FRAC_MASK, SIGN_MASK};

verus! {

/// The canonical quiet NaN that the square root of a negative value
/// produces.
pub const QNAN_BITS: u64 = 0x7ff8_0000_0000_0000;

/// The bit that distinguishes a quiet NaN from a signaling one.
pub const QUIET_BIT: u64 = 0x0008_0000_0000_0000;

/// The implicit-bit weight of a normal significand, 2^52.
pub const IMPLICIT_BIT: u64 = 0x0010_0000_0000_0000;

/// `s` is the integer square root of `n`, rounded down.
pub open spec fn is_isqrt(n: nat, s: nat) -> bool {
    s * s <= n && n < (s + 1) * (s + 1)
}

/// The integer square root of `n`, rounded down.
pub open spec fn spec_isqrt(n: nat) -> nat {
    choose|s: nat| is_isqrt(n, s)
}

/// How many doublings bring a significand below 2^52 up into
/// [2^52, 2^53).
pub open spec fn norm_shift(m: nat) -> nat
    recommends
        1 <= m < 0x20000000000000,
    decreases 0x20000000000000 - m
        when 1 <= m < 0x20000000000000
{
    if m >= 0x10000000000000 {
        0
    } else {
        1 + norm_shift(2 * m)
    }
}

/// The significand brought up into [2^52, 2^53) by doubling.
pub open spec fn norm_val(m: nat) -> nat
    recommends
        1 <= m < 0x20000000000000,
    decreases 0x20000000000000 - m
        when 1 <= m < 0x20000000000000
{
    if m >= 0x10000000000000 {
        m
    } else {
        norm_val(2 * m)
    }
}

/// The root of a positive finite pattern.  The value is m * 2^x with m
/// normalized into [2^52, 2^53); the exponent is made even (`xx` carries
/// it shifted by +1200 to stay nonnegative), the scaled significand
/// n = m * 2^(52+p) lies in [2^104, 2^106), and the rounded integer root
/// of n, which lies in [2^52, 2^53), is packed with the halved exponent.
pub open spec fn sqrt_pos_bits(a: u64) -> u64 {
    let e = a >> 52u64;
    let f = a & FRAC_MASK;
    let m0 = if e == 0 {
        f
    } else {
        (f + IMPLICIT_BIT) as u64
    };
    let sh = norm_shift(m0 as nat);
    let m = norm_val(m0 as nat);
    let xx = (if e == 0 {
        126
    } else {
        e + 125
    }) - sh;
    let p = xx % 2;
    let qq = (xx - p) / 2;
    let n = m * (if p == 1 {
        0x20000000000000nat
    } else {
        0x10000000000000nat
    });
    let s0 = spec_isqrt(n);
    let s = if n - s0 * s0 > s0 {
        s0 + 1
    } else {
        s0
    };
    (((qq + 449) as u64) << 52u64) | ((s - 0x10000000000000nat) as u64)
}

/// The IEEE square root of a pattern: NaN is quieted, the two zeroes
/// return themselves, a negative value yields the canonical quiet NaN,
/// positive infinity returns itself, and a positive finite value is
/// rounded to nearest (a tie cannot arise).
pub open spec fn sqrt_bits(a: u64) -> u64 {
    if is_nan_bits(a) {
        a | QUIET_BIT
    } else if a == 0 || a == SIGN_MASK {
        a
    } else if a & SIGN_MASK != 0 {
        QNAN_BITS
    } else if a == EXP_MASK {
        a
    } else {
        sqrt_pos_bits(a)
    }
}

/// Two integer square roots of the same number are the same.
proof fn lemma_isqrt_unique(n: nat, x: nat, y: nat)
    requires
        is_isqrt(n, x),
        is_isqrt(n, y),
    ensures
        x == y,
{
    if x < y {
        assert(y * y <= n);
        assert((x + 1) * (x + 1) <= y * y) by (nonlinear_arith)
            requires
                x + 1 <= y,
        ;
    }
    if y < x {
        assert(x * x <= n);
        assert((y + 1) * (y + 1) <= x * x) by (nonlinear_arith)
            requires
                y + 1 <= x,
        ;
    }
}

/// The integer square root of a number below 2^106, rounded down, found
/// bit by bit from 2^52 downward.
fn isqrt106(n: u128) -> (r: u128)
    requires
        n < 0x400_0000_0000_0000_0000_0000_0000,
    ensures
        is_isqrt(n as nat, r as nat),
        r as nat == spec_isqrt(n as nat),
{
    let mut s: u128 = 0;
    let mut b: u128 = 0x10_0000_0000_0000;
    let ghost mut bi: nat = 52;
    proof {
        lemma2_to64();
        lemma2_to64_rest();
        assert(0x20_0000_0000_0000nat * 0x20_0000_0000_0000nat
            == 0x400_0000_0000_0000_0000_0000_0000nat) by (nonlinear_arith);
    }
    while b != 0
        invariant
            n < 0x400_0000_0000_0000_0000_0000_0000,
            s + 2 * b <= 0x40_0000_0000_0000,
            b == 0 || b as nat == pow2(bi),
            (s as nat) * (s as nat) <= n as nat,
            b > 0 ==> (n as nat) < ((s + 2 * b) as nat) * ((s + 2 * b) as nat),
            b == 0 ==> (n as nat) < ((s + 1) as nat) * ((s + 1) as nat),
        decreases b,
    {
        let t = s + b;
        proof {
            assert(t * t <= 0x40_0000_0000_0000 * 0x40_0000_0000_0000) by (nonlinear_arith)
                requires
                    t <= 0x40_0000_0000_0000,
            ;
            if bi > 0 {
                lemma_pow2_adds((bi - 1) as nat, 1);
                lemma2_to64();
                assert(b as nat == pow2((bi - 1) as nat) * 2);
            } else {
                lemma2_to64();
                assert(b == 1);
            }
        }
        if t * t <= n {
            s = t;
        }
        b = b / 2;
        proof {
            if bi > 0 {
                bi = (bi - 1) as nat;
                assert(b as nat == pow2(bi));
            }
        }
    }
    proof {
        assert(is_isqrt(n as nat, s as nat));
        lemma_isqrt_unique(n as nat, s as nat, spec_isqrt(n as nat));
    }
    s
}

/// Computes the IEEE square root of a pattern, exactly as `sqrt_bits`
/// states it.
pub(crate) fn fp_sqrt(a: u64) -> (r: u64)
    ensures
        r == sqrt_bits(a),
{
    if a & EXP_MASK == EXP_MASK && a & FRAC_MASK != 0 {
        return a | QUIET_BIT;
    }
    if a == 0 || a == SIGN_MASK {
        return a;
    }
    if a & SIGN_MASK != 0 {
        return QNAN_BITS;
    }
    if a == EXP_MASK {
        return a;
    }
    let e: u64 = a >> 52;
    let f: u64 = a & FRAC_MASK;
    proof {
        lemma_unpack_positive(a);
    }
    let m0: u64 = if e == 0 {
        f
    } else {
        f + IMPLICIT_BIT
    };
    let mut m: u64 = m0;
    let mut sh: u64 = 0;
    proof {
        lemma2_to64();
    }
    while m < IMPLICIT_BIT
        invariant
            1 <= m < 0x20_0000_0000_0000,
            1 <= m0 < 0x20_0000_0000_0000,
            norm_val(m0 as nat) == norm_val(m as nat),
            norm_shift(m0 as nat) == sh + norm_shift(m as nat),
            m as nat == m0 as nat * pow2(sh as nat),
            sh <= 52,
        decreases 0x20_0000_0000_0000 - m,
    {
        proof {
            lemma_pow2_adds(sh as nat, 1);
            lemma2_to64();
            let p0 = pow2(sh as nat);
            let p1 = pow2((sh + 1) as nat);
            assert(p1 == p0 * 2);
            assert(m0 as nat * p1 == 2 * (m0 as nat * p0)) by (nonlinear_arith)
                requires
                    p1 == p0 * 2,
            ;
            lemma_shift_bound(m0 as nat, (sh + 1) as nat, 2 * m as nat);
        }
        m = m * 2;
        sh = sh + 1;
    }
    let xx: u64 = (if e == 0 {
        126
    } else {
        e + 125
    }) - sh;
    let p: u64 = xx % 2;
    let qq: u64 = (xx - p) / 2;
    let n: u128 = (m as u128) * (if p == 1 {
        0x20_0000_0000_0000u128
    } else {
        0x10_0000_0000_0000u128
    });
    let s0: u128 = isqrt106(n);
    proof {
        lemma_root_range(n as nat, s0 as nat);
    }
    let rem: u128 = n - s0 * s0;
    let s_fin: u128 = if rem > s0 {
        s0 + 1
    } else {
        s0
    };
    proof {
        lemma_no_carry(m as nat, n as nat, s0 as nat);
    }
    let frac: u64 = (s_fin - 0x10_0000_0000_0000) as u64;
    ((qq + 449) << 52) | frac
}

/// Unpacking a positive finite non-zero pattern: the exponent field is
/// below its saturated value, and a zero exponent field comes with a
/// non-zero fraction.
proof fn lemma_unpack_positive(a: u64)
    requires
        a & SIGN_MASK == 0,
        !(a & EXP_MASK == EXP_MASK && a & FRAC_MASK != 0),
        a != 0,
        a != EXP_MASK,
    ensures
        a >> 52u64 < 2047,
        a >> 52u64 == 0 ==> a & FRAC_MASK != 0,
        a & FRAC_MASK < 0x10_0000_0000_0000,
        a >> 52u64 > 0 ==> a & EXP_MASK != EXP_MASK,
{
    assert(a & 0x8000_0000_0000_0000u64 == 0 && !(a & 0x7ff0_0000_0000_0000u64
        == 0x7ff0_0000_0000_0000u64 && a & 0x000f_ffff_ffff_ffffu64 != 0) && a != 0 && a
        != 0x7ff0_0000_0000_0000u64 ==> (a >> 52u64 < 2047) && (a >> 52u64 == 0 ==> a
        & 0x000f_ffff_ffff_ffffu64 != 0) && (a & 0x000f_ffff_ffff_ffffu64 < 0x10_0000_0000_0000)
        && (a >> 52u64 > 0 ==> a & 0x7ff0_0000_0000_0000u64 != 0x7ff0_0000_0000_0000u64))
        by (bit_vector);
}

/// A product of a positive number with a power of two that stays below
/// 2^53 forces the exponent to stay at 52 or below.
proof fn lemma_shift_bound(m0: nat, sh: nat, m: nat)
    requires
        m0 >= 1,
        m == m0 * pow2(sh),
        m < 0x20_0000_0000_0000,
    ensures
        sh <= 52,
{
    if sh > 52 {
        lemma2_to64();
        lemma2_to64_rest();
        if sh > 53 {
            lemma_pow2_strictly_increases(53, sh);
        }
        assert(pow2(sh) >= pow2(53));
        assert(m0 * pow2(sh) >= 1 * pow2(sh)) by (nonlinear_arith)
            requires
                m0 >= 1,
                pow2(sh) >= 0,
        ;
    }
}

/// The rounded-down root of a scaled significand in [2^104, 2^106) is a
/// 53-bit integer.
proof fn lemma_root_range(n: nat, s0: nat)
    requires
        0x1_0000_0000_0000_0000_0000_0000_00 <= n,
        n < 0x400_0000_0000_0000_0000_0000_0000,
        is_isqrt(n, s0),
    ensures
        0x10_0000_0000_0000 <= s0 < 0x20_0000_0000_0000,
{
    if s0 < 0x10_0000_0000_0000 {
        assert((s0 + 1) * (s0 + 1) <= 0x10_0000_0000_0000 * 0x10_0000_0000_0000)
            by (nonlinear_arith)
            requires
                s0 + 1 <= 0x10_0000_0000_0000,
        ;
    }
    if s0 >= 0x20_0000_0000_0000 {
        assert(s0 * s0 >= 0x20_0000_0000_0000 * 0x20_0000_0000_0000) by (nonlinear_arith)
            requires
                s0 >= 0x20_0000_0000_0000,
        ;
    }
}

/// Rounding the root up cannot carry out of the 53-bit significand: at
/// the top root 2^53 - 1 the remainder never exceeds the root.
proof fn lemma_no_carry(m: nat, n: nat, s0: nat)
    requires
        m < 0x20_0000_0000_0000,
        n <= m * 0x20_0000_0000_0000,
        is_isqrt(n, s0),
        s0 < 0x20_0000_0000_0000,
    ensures
        n - s0 * s0 > s0 ==> s0 + 1 < 0x20_0000_0000_0000,
{
    if s0 == 0x20_0000_0000_0000 - 1 {
        assert(n <= (0x20_0000_0000_0000 - 1) * 0x20_0000_0000_0000) by (nonlinear_arith)
            requires
                m < 0x20_0000_0000_0000,
                n <= m * 0x20_0000_0000_0000,
        ;
        assert((0x20_0000_0000_0000 - 1) * 0x20_0000_0000_0000 == (0x20_0000_0000_0000 - 1) * (
        0x20_0000_0000_0000 - 1) + (0x20_0000_0000_0000 - 1)) by (nonlinear_arith);
    }
}

} // verus!
