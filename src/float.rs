//! IEEE-754 facts read off bit patterns: NaN, zero and equality.
//! Float arithmetic, conversion and formatting are left to the host
//! (see `Real` and `Piece`).
use vstd::arithmetic::power2::{lemma2_to64, lemma2_to64_rest, lemma_pow2_strictly_increases, pow2};
use vstd::bits::{lemma_u64_shl_is_mul, lemma_u64_shr_is_div};
use vstd::prelude::*;

verus! {

pub open spec fn nan64(b: u64) -> bool {
    (b >> 52u64) & 0x7ffu64 == 0x7ffu64 && b & 0xf_ffff_ffff_ffffu64 != 0
}

pub open spec fn zero64(b: u64) -> bool {
    b & 0x7fff_ffff_ffff_ffffu64 == 0
}

/// `==` on two `f64`s given by their bits: NaN equals nothing, and the two
/// zeros are equal.
pub open spec fn eq64(a: u64, b: u64) -> bool {
    !nan64(a) && !nan64(b) && (a == b || (zero64(a) && zero64(b)))
}

pub open spec fn nan32(b: u32) -> bool {
    (b >> 23u32) & 0xffu32 == 0xffu32 && b & 0x7f_ffffu32 != 0
}

pub open spec fn zero32(b: u32) -> bool {
    b & 0x7fff_ffffu32 == 0
}

pub open spec fn eq32(a: u32, b: u32) -> bool {
    !nan32(a) && !nan32(b) && (a == b || (zero32(a) && zero32(b)))
}

/// The bits used for hashing: both zeros hash as positive zero.
pub open spec fn canonical64(b: u64) -> u64 {
    if zero64(b) { 0 } else { b }
}

pub open spec fn canonical32(b: u32) -> u32 {
    if zero32(b) { 0 } else { b }
}

pub fn is_nan64(b: u64) -> (r: bool)
    ensures
        r == nan64(b),
{
    (b >> 52u64) & 0x7ffu64 == 0x7ffu64 && b & 0xf_ffff_ffff_ffffu64 != 0
}

pub fn is_zero64(b: u64) -> (r: bool)
    ensures
        r == zero64(b),
{
    b & 0x7fff_ffff_ffff_ffffu64 == 0
}

pub fn is_nan32(b: u32) -> (r: bool)
    ensures
        r == nan32(b),
{
    (b >> 23u32) & 0xffu32 == 0xffu32 && b & 0x7f_ffffu32 != 0
}

pub fn is_zero32(b: u32) -> (r: bool)
    ensures
        r == zero32(b),
{
    b & 0x7fff_ffffu32 == 0
}

pub fn equal64(a: u64, b: u64) -> (r: bool)
    ensures
        r == eq64(a, b),
{
    !is_nan64(a) && !is_nan64(b) && (a == b || (is_zero64(a) && is_zero64(b)))
}

pub fn equal32(a: u32, b: u32) -> (r: bool)
    ensures
        r == eq32(a, b),
{
    !is_nan32(a) && !is_nan32(b) && (a == b || (is_zero32(a) && is_zero32(b)))
}

/// Two `f64`s that compare equal have the same canonical bits.
pub proof fn lemma_eq64_canonical(a: u64, b: u64)
    requires
        eq64(a, b),
    ensures
        canonical64(a) == canonical64(b),
{
}

pub proof fn lemma_eq32_canonical(a: u32, b: u32)
    requires
        eq32(a, b),
    ensures
        canonical32(a) == canonical32(b),
{
}

/// The magnitude an `f64` truncates to, before the sign and saturation:
/// `2^63` stands for anything at least that large.
pub open spec fn magnitude64(b: u64) -> int {
    let e = ((b >> 52u64) & 0x7ffu64) as int;
    let m = (b & 0xf_ffff_ffff_ffffu64) as int + pow2(52) as int;
    if e < 1023 {
        0
    } else if e >= 1086 {
        0x8000_0000_0000_0000
    } else if e >= 1075 {
        m * (pow2((e - 1075) as nat) as int)
    } else {
        m / (pow2((1075 - e) as nat) as int)
    }
}

/// `x as i64` for the `f64` with bits `b`: truncation toward zero,
/// saturating at the bounds of `i64`, and 0 for NaN.
pub open spec fn trunc64(b: u64) -> int {
    if nan64(b) {
        0
    } else if b >> 63u64 == 1 {
        -magnitude64(b)
    } else if magnitude64(b) > i64::MAX {
        i64::MAX as int
    } else {
        magnitude64(b)
    }
}

pub open spec fn magnitude32(b: u32) -> int {
    let e = ((b >> 23u32) & 0xffu32) as int;
    let m = (b & 0x7f_ffffu32) as int + pow2(23) as int;
    if e < 127 {
        0
    } else if e >= 190 {
        0x8000_0000_0000_0000
    } else if e >= 150 {
        m * (pow2((e - 150) as nat) as int)
    } else {
        m / (pow2((150 - e) as nat) as int)
    }
}

/// `x as i64` for the `f32` with bits `b`.
pub open spec fn trunc32(b: u32) -> int {
    if nan32(b) {
        0
    } else if b >> 31u32 == 1 {
        -magnitude32(b)
    } else if magnitude32(b) > i64::MAX {
        i64::MAX as int
    } else {
        magnitude32(b)
    }
}

pub fn truncate64(b: u64) -> (r: i64)
    ensures
        r as int == trunc64(b),
{
    if is_nan64(b) {
        return 0;
    }
    let e = (b >> 52u64) & 0x7ffu64;
    let f = b & 0xf_ffff_ffff_ffffu64;
    assert(f < 0x10_0000_0000_0000u64) by (bit_vector)
        requires
            f == b & 0xf_ffff_ffff_ffffu64,
    ;
    assert(b >> 63u64 <= 1) by (bit_vector);
    proof {
        lemma2_to64();
        lemma2_to64_rest();
    }
    let mut mag: u64 = 0;
    if e >= 1086 {
        mag = 0x8000_0000_0000_0000u64;
    } else if e >= 1075 {
        let m = f + 0x10_0000_0000_0000u64;
        let k = e - 1075;
        proof {
            if k < 10 {
                lemma_pow2_strictly_increases(k as nat, 10);
            }
            assert(m * pow2(k as nat) < 0x8000_0000_0000_0000) by (nonlinear_arith)
                requires
                    m < 0x20_0000_0000_0000u64,
                    pow2(k as nat) <= 1024,
            ;
            lemma_u64_shl_is_mul(m, k);
        }
        mag = m << k;
    } else if e >= 1023 {
        let m = f + 0x10_0000_0000_0000u64;
        let k = 1075 - e;
        proof {
            lemma_u64_shr_is_div(m, k);
        }
        mag = m >> k;
        assert(mag <= m);
    }
    assert(mag as int == magnitude64(b));
    assert(mag <= 0x8000_0000_0000_0000u64);
    if b >> 63u64 == 1 {
        if mag == 0x8000_0000_0000_0000u64 {
            i64::MIN
        } else {
            -(mag as i64)
        }
    } else if mag >= 0x8000_0000_0000_0000u64 {
        i64::MAX
    } else {
        mag as i64
    }
}

pub fn truncate32(b: u32) -> (r: i64)
    ensures
        r as int == trunc32(b),
{
    if is_nan32(b) {
        return 0;
    }
    let e = (b >> 23u32) & 0xffu32;
    let f = b & 0x7f_ffffu32;
    assert(f < 0x80_0000u32) by (bit_vector)
        requires
            f == b & 0x7f_ffffu32,
    ;
    assert(b >> 31u32 <= 1) by (bit_vector);
    proof {
        lemma2_to64();
        lemma2_to64_rest();
    }
    let m: u64 = (f as u64) + 0x80_0000u64;
    let mut mag: u64 = 0;
    if e >= 190 {
        mag = 0x8000_0000_0000_0000u64;
    } else if e >= 150 {
        let k = (e - 150) as u64;
        proof {
            if k < 39 {
                lemma_pow2_strictly_increases(k as nat, 39);
            }
            assert(m * pow2(k as nat) < 0x8000_0000_0000_0000) by (nonlinear_arith)
                requires
                    m < 0x100_0000u64,
                    pow2(k as nat) <= 0x80_0000_0000,
            ;
            lemma_u64_shl_is_mul(m, k);
        }
        mag = m << k;
    } else if e >= 127 {
        let k = (150 - e) as u64;
        proof {
            lemma_u64_shr_is_div(m, k);
        }
        mag = m >> k;
        assert(mag <= m);
    }
    assert(mag as int == magnitude32(b));
    assert(mag <= 0x8000_0000_0000_0000u64);
    if b >> 31u32 == 1 {
        if mag == 0x8000_0000_0000_0000u64 {
            i64::MIN
        } else {
            -(mag as i64)
        }
    } else if mag >= 0x8000_0000_0000_0000u64 {
        i64::MAX
    } else {
        mag as i64
    }
}

} // verus!
