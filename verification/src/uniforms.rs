//! Contents of the per-resolution uniform buffer.
//!
//! The shader reads the resolution metrics `(1/w, 1/h, w, h)` as four
//! 32-bit IEEE-754 binary32 values. Proofs cannot touch machine
//! floating point, so the bit patterns are computed here by verified
//! integer arithmetic: a binary32 value is encoded by rounding to nearest,
//! ties to even, exactly as the hardware conversion and division would.

use vstd::prelude::*;
use vstd::arithmetic::power2::{
    pow2,
    lemma_pow2_adds,
    lemma_pow2_pos,
    lemma_pow2_strictly_increases,
    lemma2_to64,
    lemma2_to64_rest,
};
use vstd::arithmetic::div_mod::{lemma_div_is_ordered, lemma_div_denominator};
use vstd::arithmetic::mul::lemma_mul_inequality;

verus! {

/// `a / b` rounded to the nearest integer, ties to even.
pub open spec fn rne_div(a: nat, b: nat) -> nat
    recommends
        b > 0,
{
    let q = a / b;
    let r = a % b;
    if 2 * r < b {
        q
    } else if 2 * r > b {
        q + 1
    } else if q % 2 == 0 {
        q
    } else {
        q + 1
    }
}

/// The floor of the base-2 logarithm; 0 for 0.
pub open spec fn floor_log2(x: nat) -> nat
    decreases x,
{
    if x <= 1 {
        0
    } else {
        1 + floor_log2(x / 2)
    }
}

/// The binary32 significand and exponent nearest to `x >= 1`, rounding to
/// nearest, ties to even: returns `(m, e)` with `2^23 <= m < 2^24` such
/// that the rounded value is `m * 2^(e - 23)`.
pub open spec fn norm_mantissa_exp(x: nat) -> (nat, nat)
    recommends
        x >= 1,
{
    let e = floor_log2(x);
    let m = rne_div(x * pow2(23), pow2(e));
    if m == pow2(24) {
        (pow2(23), (e + 1) as nat)
    } else {
        (m, e)
    }
}

/// The IEEE-754 binary32 bit pattern of `x` converted from an unsigned
/// 32-bit integer (round to nearest, ties to even).
pub open spec fn float32_bits(x: u32) -> u32 {
    if x == 0 {
        0
    } else {
        let me = norm_mantissa_exp(x as nat);
        (((me.1 + 127) * pow2(23) + (me.0 - pow2(23))) as u32)
    }
}

/// The IEEE-754 binary32 bit pattern of `1.0 / (x as binary32)` for
/// `x >= 1`: the reciprocal of the rounded value of `x`, itself rounded to
/// nearest, ties to even. The result lies in `[2^-32, 1]`, so no overflow,
/// underflow or subnormal arises.
pub open spec fn float32_recip_bits(x: u32) -> u32
    recommends
        x >= 1,
{
    let me = norm_mantissa_exp(x as nat);
    if me.0 == pow2(23) {
        // x rounded to an exact power of two: the reciprocal is exact.
        (((127 - me.1) * pow2(23)) as u32)
    } else {
        let m2 = rne_div(pow2(47), me.0);
        if m2 == pow2(24) {
            (((127 - me.1) * pow2(23)) as u32)
        } else {
            (((126 - me.1) * pow2(23) + (m2 - pow2(23))) as u32)
        }
    }
}

/// The four little-endian bytes of a 32-bit word.
pub open spec fn le_bytes32(w: u32) -> Seq<u8> {
    seq![
        (w % 256) as u8,
        ((w / 256) % 256) as u8,
        ((w / 65536) % 256) as u8,
        ((w / 16777216) % 256) as u8,
    ]
}

/// The 16 bytes of the resolution uniform block: `(1/w, 1/h, w, h)` as
/// binary32 values, each little-endian.
pub open spec fn rt_metrics(width: u32, height: u32) -> Seq<u8>
    recommends
        width >= 1,
        height >= 1,
{
    le_bytes32(float32_recip_bits(width)) + le_bytes32(float32_recip_bits(height)) + le_bytes32(
        float32_bits(width),
    ) + le_bytes32(float32_bits(height))
}

/// `2^e` as a 64-bit value.
fn pow2_u64(e: u32) -> (r: u64)
    requires
        e <= 63,
    ensures
        r == pow2(e as nat),
{
    let mut r: u64 = 1;
    let mut i: u32 = 0;
    proof {
        lemma2_to64();
    }
    while i < e
        invariant
            i <= e,
            e <= 63,
            r == pow2(i as nat),
        decreases e - i,
    {
        proof {
            lemma_pow2_adds(i as nat, 1);
            lemma2_to64();
            lemma_pow2_strictly_increases(i as nat, 63);
            lemma2_to64_rest();
        }
        r = r * 2;
        i = i + 1;
    }
    r
}

/// The floor of the base-2 logarithm of `x >= 1`, with its bracketing
/// property.
pub fn floor_log2_u32(x: u32) -> (r: u32)
    requires
        x >= 1,
    ensures
        r == floor_log2(x as nat),
        r <= 31,
        pow2(r as nat) <= x < pow2((r + 1) as nat),
{
    let mut n: u32 = x;
    let mut e: u32 = 0;
    proof {
        lemma2_to64();
        assert(pow2(0) == 1);
    }
    while n >= 2
        invariant
            1 <= n <= x,
            floor_log2(x as nat) == e + floor_log2(n as nat),
            n as nat == x as nat / pow2(e as nat),
            e <= 31,
        decreases n,
    {
        proof {
            lemma_pow2_pos(e as nat);
            lemma_pow2_adds(e as nat, 1);
            lemma2_to64();
            vstd::arithmetic::div_mod::lemma_fundamental_div_mod(
                x as int,
                pow2(e as nat) as int,
            );
            vstd::arithmetic::div_mod::lemma_mod_bound(x as int, pow2(e as nat) as int);
            // n >= 2 forces x >= 2 * pow2(e) == pow2(e + 1).
            lemma_mul_inequality(2, n as int, pow2(e as nat) as int);
            assert(x as nat >= pow2((e + 1) as nat));
            if e >= 31 {
                lemma2_to64();
                lemma_pow2_adds(31, 1);
                assert(false);
            }
            // Halving the quotient steps the divisor to the next power.
            lemma_div_denominator(x as int, pow2(e as nat) as int, 2);
        }
        n = n / 2;
        e = e + 1;
    }
    proof {
        lemma_pow2_pos(e as nat);
        vstd::arithmetic::div_mod::lemma_fundamental_div_mod(x as int, pow2(e as nat) as int);
        vstd::arithmetic::div_mod::lemma_mod_bound(x as int, pow2(e as nat) as int);
        lemma_pow2_adds(e as nat, 1);
        lemma2_to64();
    }
    e
}

/// `a / b` rounded to the nearest integer, ties to even.
pub fn rne_div_u64(a: u64, b: u64) -> (q: u64)
    requires
        b >= 1,
    ensures
        q == rne_div(a as nat, b as nat),
        q <= a as nat / b as nat + 1,
        a as nat / b as nat <= q,
{
    let q0: u64 = a / b;
    let r: u64 = a % b;
    if r < b - r {
        q0
    } else {
        proof {
            // Rounding away from zero only happens with a remainder, so
            // b >= 2 and q0 + 1 cannot overflow.
            if b == 1 {
                assert(r == 0);
            }
            lemma_div_is_ordered_by_denominator_u64(a, b);
        }
        if r > b - r {
            q0 + 1
        } else if q0 % 2 == 0 {
            q0
        } else {
            q0 + 1
        }
    }
}

/// Helper bound: with a divisor of at least 2, a 64-bit quotient stays
/// below `2^63`.
proof fn lemma_div_is_ordered_by_denominator_u64(a: u64, b: u64)
    requires
        b >= 2,
    ensures
        a as nat / b as nat <= a as nat / 2,
{
    vstd::arithmetic::div_mod::lemma_div_is_ordered_by_denominator(a as int, 2, b as int);
}

/// Bounds of the rounded significand of `x`: scaling `x` into
/// `[2^23, 2^24)` and rounding stays within `[2^23, 2^24]`.
proof fn lemma_scaled_mantissa_bounds(x: u32, e: u32)
    requires
        x >= 1,
        e <= 31,
        pow2(e as nat) <= x < pow2((e + 1) as nat),
    ensures
        pow2(23) <= (x as nat * pow2(23)) / pow2(e as nat),
        (x as nat * pow2(23)) / pow2(e as nat) < pow2(24),
{
    let a = x as nat * pow2(23);
    let pe = pow2(e as nat);
    lemma_pow2_pos(e as nat);
    lemma_pow2_pos(23);
    // Lower bound: a >= pe * 2^23, and (pe * 2^23) / pe == 2^23.
    lemma_mul_inequality(pe as int, x as int, pow2(23) as int);
    lemma_div_is_ordered((pe * pow2(23)) as int, a as int, pe as int);
    vstd::arithmetic::div_mod::lemma_div_multiples_vanish(pow2(23) as int, pe as int);
    // Upper bound: a < pow2(e + 1) * 2^23 == pe * 2^24.
    lemma_mul_inequality((x + 1) as int, pow2((e + 1) as nat) as int, pow2(23) as int);
    lemma_pow2_adds(e as nat, 1);
    lemma_pow2_adds(23, 1);
    lemma2_to64();
    assert(pow2((e + 1) as nat) * pow2(23) == pe * pow2(24)) by {
        assert(pow2((e + 1) as nat) * pow2(23) == (pe * 2) * pow2(23));
        assert((pe * 2) * pow2(23) == pe * (2 * pow2(23))) by {
            vstd::arithmetic::mul::lemma_mul_is_associative(pe as int, 2, pow2(23) as int);
        };
    };
    vstd::arithmetic::div_mod::lemma_multiply_divide_lt(a as int, pe as int, pow2(24) as int);
}

/// The binary32 bit pattern of `x` as an unsigned integer.
pub fn float32_bits_u32(x: u32) -> (r: u32)
    ensures
        r == float32_bits(x),
{
    if x == 0 {
        return 0;
    }
    let e = floor_log2_u32(x);
    let pe = pow2_u64(e);
    proof {
        lemma2_to64();
        lemma_mul_inequality(x as int, u32::MAX as int, 8388608);
    }
    let a: u64 = (x as u64) * 8388608;
    let m = rne_div_u64(a, pe);
    proof {
        lemma_scaled_mantissa_bounds(x, e);
    }
    if m == 16777216 {
        // The significand rounded up to 2^24: carry into the exponent.
        (e + 128) * 8388608
    } else {
        (e + 127) * 8388608 + (m as u32 - 8388608)
    }
}

/// The binary32 bit pattern of the reciprocal of `x` (that is, of one
/// divided by the binary32 value nearest to `x`).
pub fn float32_recip_u32(x: u32) -> (r: u32)
    requires
        x >= 1,
    ensures
        r == float32_recip_bits(x),
{
    let e = floor_log2_u32(x);
    let pe = pow2_u64(e);
    proof {
        lemma2_to64();
        lemma_mul_inequality(x as int, u32::MAX as int, 8388608);
    }
    let a: u64 = (x as u64) * 8388608;
    let m = rne_div_u64(a, pe);
    proof {
        lemma_scaled_mantissa_bounds(x, e);
    }
    if m == 8388608 {
        // x rounded to exactly 2^e: the reciprocal 2^-e is exact.
        (127 - e) * 8388608
    } else if m == 16777216 {
        // x rounded up to exactly 2^(e+1): the reciprocal is exact.
        (126 - e) * 8388608
    } else {
        proof {
            lemma2_to64();
            lemma2_to64_rest();
            lemma_recip_mantissa_bounds(m);
        }
        let m2 = rne_div_u64(140737488355328u64, m);
        if m2 == 16777216 {
            // The reciprocal's significand rounded up to 2^24: carry.
            (127 - e) * 8388608
        } else {
            (126 - e) * 8388608 + (m2 as u32 - 8388608)
        }
    }
}

/// Bounds of the reciprocal significand: `2^47 / m` lies in
/// `[2^23, 2^24)` when `m` lies strictly between `2^23` and `2^24`.
proof fn lemma_recip_mantissa_bounds(m: u64)
    requires
        pow2(23) < m < pow2(24),
    ensures
        pow2(23) <= pow2(47) / (m as nat),
        (pow2(47) / (m as nat)) < pow2(24),
{
    lemma2_to64();
    lemma2_to64_rest();
    // Lower bound: m * 2^23 <= 2^47, so 2^47 / m >= 2^23.
    assert(m as int * pow2(23) as int <= pow2(24) as int * pow2(23) as int) by {
        lemma_mul_inequality(m as int, pow2(24) as int, pow2(23) as int);
    };
    lemma_pow2_adds(24, 23);
    vstd::arithmetic::div_mod::lemma_multiply_divide_le(
        (m as int * pow2(23) as int),
        m as int,
        pow2(23) as int,
    );
    assert((m as nat * pow2(23)) / m as nat == pow2(23)) by {
        vstd::arithmetic::div_mod::lemma_div_multiples_vanish(pow2(23) as int, m as int);
    };
    lemma_div_is_ordered((m as nat * pow2(23)) as int, pow2(47) as int, m as int);
    // Upper bound: 2^47 < (2^23 + 1) * 2^24 <= m * 2^24.
    assert(pow2(47) < (pow2(23) + 1) * pow2(24)) by {
        lemma_pow2_adds(23, 24);
    };
    lemma_mul_inequality((pow2(23) + 1) as int, m as int, pow2(24) as int);
    vstd::arithmetic::div_mod::lemma_multiply_divide_lt(
        pow2(47) as int,
        m as int,
        pow2(24) as int,
    );
}

/// Appends the four little-endian bytes of `w`.
fn push_le_bytes32(v: &mut Vec<u8>, w: u32)
    ensures
        final(v)@ == old(v)@ + le_bytes32(w),
{
    v.push((w % 256) as u8);
    v.push((w / 256 % 256) as u8);
    v.push((w / 65536 % 256) as u8);
    v.push((w / 16777216 % 256) as u8);
    proof {
        assert(v@ =~= old(v)@ + le_bytes32(w));
    }
}

/// The 16 bytes uploaded to the resolution uniform buffer: the binary32
/// values `(1/width, 1/height, width, height)`, little-endian.
pub fn rt_uniform_data(width: u32, height: u32) -> (r: Vec<u8>)
    requires
        width >= 1,
        height >= 1,
    ensures
        r@ == rt_metrics(width, height),
        r@.len() == 16,
{
    let mut v: Vec<u8> = Vec::new();
    push_le_bytes32(&mut v, float32_recip_u32(width));
    push_le_bytes32(&mut v, float32_recip_u32(height));
    push_le_bytes32(&mut v, float32_bits_u32(width));
    push_le_bytes32(&mut v, float32_bits_u32(height));
    proof {
        assert(v@ =~= rt_metrics(width, height));
    }
    v
}

} // verus!
