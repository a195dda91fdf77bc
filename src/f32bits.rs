//! IEEE-754 binary32 values carried as their bit patterns.
//!
//! The library never computes in floating point. A value arrives as the
//! 32 bits that encode it, and the few questions the logic asks of it (does
//! it lie in a closed interval, which byte does it map to on an axis) are
//! answered exactly from those bits.

use vstd::prelude::*;
use vstd::arithmetic::div_mod::lemma_fundamental_div_mod_converse;

verus! {

/// A binary32 floating-point value, held as its bit pattern.
#[derive(Clone, Copy, Debug, PartialEq, Eq, Structural)]
pub struct F32Bits {
    pub bits: u32,
}

/// Bit pattern of `1.0`.
pub const F32_ONE: u32 = 0x3F80_0000;

/// Bit pattern of `-0.0`.
pub const F32_NEG_ZERO: u32 = 0x8000_0000;

/// Two to the power `k`.
pub open spec fn exp2(k: nat) -> nat
    decreases k,
{
    if k == 0 {
        1
    } else {
        2 * exp2((k - 1) as nat)
    }
}

/// The sign bit is set.
pub open spec fn is_negative(b: u32) -> bool {
    b >= 0x8000_0000
}

/// The 8-bit biased exponent field.
pub open spec fn biased_exponent(b: u32) -> nat {
    ((b % 0x8000_0000) / 0x80_0000) as nat
}

/// The 23-bit fraction field.
pub open spec fn fraction(b: u32) -> nat {
    (b % 0x80_0000) as nat
}

/// For a value of magnitude below 2, the magnitude is
/// `significand(b) / exp2(scale(b))`.
pub open spec fn significand(b: u32) -> nat {
    if biased_exponent(b) == 0 {
        fraction(b)
    } else {
        fraction(b) + 0x80_0000
    }
}

/// See `significand`.
pub open spec fn scale(b: u32) -> nat {
    if biased_exponent(b) == 0 {
        149
    } else {
        (150 - biased_exponent(b)) as nat
    }
}

/// The encoded value lies in `[-1, 1]` (NaN does not).
pub open spec fn in_signed_unit(b: u32) -> bool {
    b % 0x8000_0000 <= F32_ONE
}

/// The encoded value lies in `[0, 1]` (`-0.0` does, NaN does not).
pub open spec fn in_unit(b: u32) -> bool {
    b <= F32_ONE || b == F32_NEG_ZERO
}

/// `floor((v + 1) * 127.5)` for the value `v` in `[-1, 1]` that `b` encodes.
pub open spec fn stick_byte(b: u32) -> int {
    let p = exp2(scale(b)) as int;
    let n = significand(b) as int;
    let num = if is_negative(b) {
        p - n
    } else {
        p + n
    };
    (num * 255) / (2 * p)
}

/// `floor(v * 255)` for the value `v` in `[0, 1]` that `b` encodes.
pub open spec fn trigger_byte(b: u32) -> int {
    (significand(b) * 255) as int / exp2(scale(b)) as int
}

proof fn lemma_exp2_pos(k: nat)
    ensures
        exp2(k) > 0,
    decreases k,
{
    if k > 0 {
        lemma_exp2_pos((k - 1) as nat);
    }
}

proof fn lemma_exp2_le(a: nat, b: nat)
    requires
        a <= b,
    ensures
        exp2(a) <= exp2(b),
    decreases b,
{
    if a < b {
        lemma_exp2_le(a, (b - 1) as nat);
        lemma_exp2_pos((b - 1) as nat);
    }
}

proof fn lemma_exp2_values()
    ensures
        exp2(23) == 0x80_0000,
        exp2(24) == 0x100_0000,
        exp2(31) == 0x8000_0000,
        exp2(32) == 0x1_0000_0000,
{
    reveal_with_fuel(exp2, 33);
}

/// Within the unit ranges the significand never exceeds `exp2(scale)`, and
/// a scale below 23 does not occur.
proof fn lemma_significand_bounded(b: u32)
    requires
        in_signed_unit(b),
    ensures
        significand(b) <= exp2(scale(b)),
        significand(b) < 0x100_0000,
        scale(b) >= 23,
{
    lemma_exp2_values();
    let e = biased_exponent(b);
    assert(e <= 127);
    if e == 127 {
        assert(fraction(b) == 0);
    } else {
        lemma_exp2_le(24, scale(b));
    }
}

fn exp2_u64(k: u32) -> (r: u64)
    requires
        k < 32,
    ensures
        r as int == exp2(k as nat),
        r <= 0x8000_0000,
{
    let mut r: u64 = 1;
    let mut i: u32 = 0;
    while i < k
        invariant
            i <= k < 32,
            r as int == exp2(i as nat),
        decreases k - i,
    {
        proof {
            lemma_exp2_le(i as nat, 30);
            lemma_exp2_values();
            reveal_with_fuel(exp2, 2);
        }
        r = r * 2;
        i = i + 1;
    }
    proof {
        lemma_exp2_le(k as nat, 31);
        lemma_exp2_values();
    }
    r
}

fn significand_and_scale(b: u32) -> (r: (u64, u32))
    requires
        in_signed_unit(b),
    ensures
        r.0 as int == significand(b),
        r.1 as int == scale(b),
{
    let mag = b % 0x8000_0000;
    let e = mag / 0x80_0000;
    let f = b % 0x80_0000;
    assert(f == mag % 0x80_0000) by (nonlinear_arith)
        requires
            mag == b % 0x8000_0000,
            f == b % 0x80_0000,
    {
    }
    if e == 0 {
        (f as u64, 149)
    } else {
        (f as u64 + 0x80_0000, 150 - e)
    }
}

/// Maps a stick axis value in `[-1, 1]` to its report byte,
/// `floor((v + 1) * 127.5)`: `-1` gives 0, `0` gives 127, `1` gives 255.
pub fn stick_axis_byte(v: F32Bits) -> (r: u8)
    requires
        in_signed_unit(v.bits),
    ensures
        r as int == stick_byte(v.bits),
{
    let (n, k) = significand_and_scale(v.bits);
    proof {
        lemma_significand_bounded(v.bits);
        lemma_exp2_pos(k as nat);
    }
    let neg = v.bits >= 0x8000_0000;
    if k >= 32 {
        proof {
            let p = exp2(k as nat) as int;
            lemma_exp2_le(32, k as nat);
            lemma_exp2_values();
            let ni = n as int;
            if neg {
                lemma_fundamental_div_mod_converse((p - ni) * 255, 2 * p, 127, p - 255 * ni);
            } else {
                lemma_fundamental_div_mod_converse((p + ni) * 255, 2 * p, 127, p + 255 * ni);
            }
        }
        127
    } else {
        let p = exp2_u64(k);
        let num: u64 = if neg {
            p - n
        } else {
            p + n
        };
        let q = (num * 255) / (2 * p);
        assert(q <= 255) by (nonlinear_arith)
            requires
                q as int == (num as int * 255) / (2 * p as int),
                num <= 2 * p,
                p > 0,
        {
        }
        q as u8
    }
}

/// Maps a trigger value in `[0, 1]` to its report byte, `floor(v * 255)`:
/// `0` gives 0, `1` gives 255.
pub fn trigger_axis_byte(v: F32Bits) -> (r: u8)
    requires
        in_unit(v.bits),
    ensures
        r as int == trigger_byte(v.bits),
{
    let (n, k) = significand_and_scale(v.bits);
    proof {
        lemma_significand_bounded(v.bits);
        lemma_exp2_pos(k as nat);
    }
    if k >= 32 {
        proof {
            let p = exp2(k as nat) as int;
            lemma_exp2_le(32, k as nat);
            lemma_exp2_values();
            lemma_fundamental_div_mod_converse(n as int * 255, p, 0, n as int * 255);
        }
        0
    } else {
        let p = exp2_u64(k);
        let q = (n * 255) / p;
        assert(q <= 255) by (nonlinear_arith)
            requires
                q as int == (n as int * 255) / (p as int),
                n <= p,
                p > 0,
        {
        }
        q as u8
    }
}

/// Whether the value lies in `[-1, 1]`.
pub fn is_in_signed_unit(v: F32Bits) -> (r: bool)
    ensures
        r == in_signed_unit(v.bits),
{
    v.bits % 0x8000_0000 <= F32_ONE
}

/// Whether the value lies in `[0, 1]`.
pub fn is_in_unit(v: F32Bits) -> (r: bool)
    ensures
        r == in_unit(v.bits),
{
    v.bits <= F32_ONE || v.bits == F32_NEG_ZERO
}

} // verus!
