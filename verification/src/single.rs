//! IEEE 754 single-precision values, read from their 32-bit patterns.
//!
//! A pattern holds, from the top, one sign bit, eight bits of biased exponent
//! and 23 bits of fraction. With exponent field `e` and fraction `f` it stands
//! for
//!
//! * a zero, when `e == 0` and `f == 0`;
//! * the subnormal number `f * 2^-149`, when `e == 0` and `f != 0`;
//! * the normal number `(2^23 + f) * 2^(e - 150)`, when `0 < e < 255`;
//! * an infinity, when `e == 255` and `f == 0`;
//! * no number at all, when `e == 255` and `f != 0`;
//!
//! negated where the sign bit is set.
use vstd::prelude::*;
use vstd::arithmetic::power2::{
    lemma2_to64,
    lemma_pow2_pos,
    lemma_pow2_strictly_increases,
    lemma_pow2_unfold,
    pow2,
};
use vstd::arithmetic::div_mod::{lemma_fundamental_div_mod, lemma_mod_bound};
use vstd::bits::{lemma_u32_shl_is_mul, lemma_u32_shr_is_div};

verus! {

/// The sign bit is set.
pub open spec fn negative(bits: u32) -> bool {
    bits >= 0x8000_0000
}

/// The biased exponent, from 0 to 255.
pub open spec fn exponent_field(bits: u32) -> int {
    (bits as int / 0x80_0000) % 0x100
}

/// The fraction, below `2^23`.
pub open spec fn fraction_field(bits: u32) -> int {
    bits as int % 0x80_0000
}

/// The pattern stands for no number.
pub open spec fn nan(bits: u32) -> bool {
    exponent_field(bits) == 255 && fraction_field(bits) != 0
}

/// The pattern stands for an infinity.
pub open spec fn infinite(bits: u32) -> bool {
    exponent_field(bits) == 255 && fraction_field(bits) == 0
}

/// The pattern stands for a number: a zero, a subnormal or a normal one.
pub open spec fn finite(bits: u32) -> bool {
    exponent_field(bits) < 255
}

/// The pattern stands for a zero, of either sign.
pub open spec fn zero(bits: u32) -> bool {
    exponent_field(bits) == 0 && fraction_field(bits) == 0
}

/// The integer `m` in the magnitude `m * 2^scale` of a finite pattern.
pub open spec fn significand(bits: u32) -> int {
    if exponent_field(bits) == 0 {
        fraction_field(bits)
    } else {
        0x80_0000 + fraction_field(bits)
    }
}

/// The exponent `s` in the magnitude `m * 2^s` of a finite pattern.
pub open spec fn scale(bits: u32) -> int {
    if exponent_field(bits) == 0 {
        -149
    } else {
        exponent_field(bits) - 150
    }
}

/// The integer nearest to the magnitude of a finite pattern, a tie going to
/// the larger one. Where the scale is negative, the magnitude is
/// `m / (2 * half)` with `half = 2^(-scale - 1)`, and the nearest integer is
/// the floor of `(m + half) / (2 * half)`.
pub open spec fn nearest_magnitude(bits: u32) -> int {
    let m = significand(bits);
    let s = scale(bits);
    if s >= 0 {
        m * pow2(s as nat)
    } else {
        let half = pow2((-s - 1) as nat) as int;
        (m + half) / (2 * half)
    }
}

/// The pattern rounded to a 32-bit signed integer: the nearest integer, ties
/// away from zero, brought into range; zero where the pattern is no number.
pub open spec fn nearest_i32(bits: u32) -> int {
    if nan(bits) {
        0
    } else if infinite(bits) {
        if negative(bits) {
            i32::MIN as int
        } else {
            i32::MAX as int
        }
    } else if negative(bits) {
        if nearest_magnitude(bits) >= 0x8000_0000 {
            i32::MIN as int
        } else {
            -nearest_magnitude(bits)
        }
    } else {
        if nearest_magnitude(bits) > i32::MAX {
            i32::MAX as int
        } else {
            nearest_magnitude(bits)
        }
    }
}

/// Reads the biased exponent.
pub fn exponent_of(bits: u32) -> (e: u32)
    ensures
        e == exponent_field(bits),
        e <= 255,
{
    assert((bits >> 23) & 0xFF == (bits / 0x80_0000) % 0x100) by (bit_vector);
    (bits >> 23) & 0xFF
}

/// Reads the fraction.
pub fn fraction_of(bits: u32) -> (f: u32)
    ensures
        f == fraction_field(bits),
        f < 0x80_0000,
{
    assert(bits & 0x7F_FFFF == bits % 0x80_0000) by (bit_vector);
    bits & 0x7F_FFFF
}

/// Tells whether the sign bit is set.
pub fn is_sign_negative(bits: u32) -> (r: bool)
    ensures
        r == negative(bits),
{
    assert((bits & 0x8000_0000 != 0) == (bits >= 0x8000_0000)) by (bit_vector);
    bits & 0x8000_0000 != 0
}

/// Tells whether the pattern stands for no number.
pub fn is_nan(bits: u32) -> (r: bool)
    ensures
        r == nan(bits),
{
    exponent_of(bits) == 255 && fraction_of(bits) != 0
}

/// Tells whether the pattern stands for a number.
pub fn is_finite(bits: u32) -> (r: bool)
    ensures
        r == finite(bits),
{
    exponent_of(bits) != 255
}

/// Tells whether the pattern stands for a zero of either sign.
pub fn is_zero(bits: u32) -> (r: bool)
    ensures
        r == zero(bits),
{
    assert((bits & 0x7FFF_FFFF == 0) == ((bits / 0x80_0000) % 0x100 == 0 && bits % 0x80_0000
        == 0)) by (bit_vector);
    bits & 0x7FFF_FFFF == 0
}

/// The three fields make up the whole pattern: no bit belongs to two of
/// them, and none to none.
pub proof fn lemma_fields_make_pattern(bits: u32)
    ensures
        0 <= exponent_field(bits) <= 255,
        0 <= fraction_field(bits) < 0x80_0000,
        bits == (if negative(bits) {
            0x8000_0000int
        } else {
            0
        }) + exponent_field(bits) * 0x80_0000 + fraction_field(bits),
{
}

/// Where the scale is negative, the rounded magnitude `r` is the integer
/// nearest to the magnitude `m / unit`, with `unit = 2 * half`: it lies at
/// most one half above it and less than one half below.
pub proof fn lemma_nearest_is_nearest(bits: u32)
    requires
        finite(bits),
        scale(bits) < 0,
    ensures
        ({
            let half = pow2((-scale(bits) - 1) as nat) as int;
            let r = nearest_magnitude(bits);
            let m = significand(bits);
            r * (2 * half) - half <= m < r * (2 * half) + half
        }),
{
    let half = pow2((-scale(bits) - 1) as nat) as int;
    let m = significand(bits);
    let r = nearest_magnitude(bits);
    lemma_pow2_pos((-scale(bits) - 1) as nat);
    lemma_fundamental_div_mod(m + half, 2 * half);
    lemma_mod_bound(m + half, 2 * half);
    assert(r * (2 * half) == (2 * half) * r) by (nonlinear_arith);
}

/// A magnitude below one half rounds to zero.
pub proof fn lemma_small_rounds_to_zero(bits: u32)
    requires
        exponent_field(bits) < 126,
    ensures
        nearest_magnitude(bits) == 0,
{
    let m = significand(bits);
    let e = (-scale(bits) - 1) as nat;
    let half = pow2(e) as int;
    lemma2_to64();
    if e > 24 {
        lemma_pow2_strictly_increases(24, e);
    }
    assert(0 <= m < half);
    assert((m + half) / (2 * half) == 0) by (nonlinear_arith)
        requires
            0 <= m < half,
    ;
}

/// A magnitude of one half or more rounds to at least one.
pub proof fn lemma_half_rounds_up(bits: u32)
    requires
        126 <= exponent_field(bits) < 255,
    ensures
        nearest_magnitude(bits) >= 1,
{
    let m = significand(bits);
    let s = scale(bits);
    lemma2_to64();
    if s >= 0 {
        lemma_pow2_pos(s as nat);
        let p = pow2(s as nat) as int;
        assert(m * p >= 1) by (nonlinear_arith)
            requires
                m >= 1,
                p >= 1,
        ;
    } else {
        let e = (-s - 1) as nat;
        let half = pow2(e) as int;
        if e < 23 {
            lemma_pow2_strictly_increases(e, 23);
        }
        lemma_pow2_pos(e);
        assert((m + half) / (2 * half) >= 1) by (nonlinear_arith)
            requires
                0 < half <= m,
        ;
    }
}

/// A magnitude of `2^31` or more lies beyond every positive 32-bit integer.
pub proof fn lemma_large_saturates(bits: u32)
    requires
        158 <= exponent_field(bits) < 255,
    ensures
        nearest_magnitude(bits) >= 0x8000_0000,
{
    let m = significand(bits);
    let s = scale(bits) as nat;
    lemma2_to64();
    if s > 8 {
        lemma_pow2_strictly_increases(8, s);
    }
    let p = pow2(s) as int;
    assert(m * p >= 0x8000_0000) by (nonlinear_arith)
        requires
            m >= 0x80_0000,
            p >= 0x100,
    ;
}

/// Rounds the pattern to a 32-bit signed integer: to the nearest integer,
/// ties away from zero, then into range. A pattern that is no number gives
/// zero, an infinity the extreme of its sign.
pub fn round_to_i32(bits: u32) -> (r: i32)
    ensures
        r == nearest_i32(bits),
{
    let e = exponent_of(bits);
    let f = fraction_of(bits);
    let neg = is_sign_negative(bits);
    if e == 255 {
        if f != 0 {
            0
        } else if neg {
            i32::MIN
        } else {
            i32::MAX
        }
    } else if e < 126 {
        proof {
            lemma_small_rounds_to_zero(bits);
        }
        0
    } else if e >= 158 {
        proof {
            lemma_large_saturates(bits);
        }
        if neg {
            i32::MIN
        } else {
            i32::MAX
        }
    } else {
        let m: u32 = 0x80_0000 + f;
        let magnitude: u32 = if e >= 150 {
            let up: u32 = e - 150;
            proof {
                lemma2_to64();
                if up < 7 {
                    lemma_pow2_strictly_increases(up as nat, 7);
                }
                lemma_pow2_pos(up as nat);
                let p = pow2(up as nat) as int;
                assert(m * p < 0x8000_0000) by (nonlinear_arith)
                    requires
                        0 <= m < 0x100_0000,
                        0 < p <= 0x80,
                ;
                lemma_u32_shl_is_mul(m, up);
            }
            m << up
        } else {
            let down: u32 = 150 - e;
            let below: u32 = down - 1;
            proof {
                lemma2_to64();
                if below < 23 {
                    lemma_pow2_strictly_increases(below as nat, 23);
                }
                lemma_pow2_pos(below as nat);
                lemma_pow2_unfold(down as nat);
                lemma_u32_shl_is_mul(1, below);
            }
            let half: u32 = 1 << below;
            proof {
                lemma_u32_shr_is_div((m + half) as u32, down);
            }
            (m + half) >> down
        };
        if neg {
            -(magnitude as i32)
        } else {
            magnitude as i32
        }
    }
}

} // verus!
