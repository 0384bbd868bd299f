//! Bit-level promotion of a 32-bit IEEE-754 value to the 64-bit encoding.
//!
//! The widening rules promote a 32-bit float written into a `double_float`
//! register to 64 bits. The conversion is exact and is defined here purely on
//! bit patterns: sign and NaN/infinity carry over, normal numbers have their
//! exponent re-biased from 127 to 1023, and subnormals are normalized by
//! doubling the significand until its leading bit appears.

use vstd::prelude::*;

verus! {

/// The sign bit of a 32-bit encoding.
pub open spec fn f32_sign(b: u32) -> u64 {
    ((b >> 31) & 1) as u64
}

/// The 8-bit biased exponent of a 32-bit encoding.
pub open spec fn f32_exp(b: u32) -> int {
    ((b >> 23) & 0xff) as int
}

/// The 23-bit fraction of a 32-bit encoding.
pub open spec fn f32_frac(b: u32) -> int {
    (b & 0x7fffff) as int
}

/// Normalize a subnormal significand: double `m` (and step the exponent
/// down) until its bit 23 is set. Arguments outside (0, 2^23) are returned
/// unchanged.
pub open spec fn norm_sub(m: int, e: int) -> (int, int)
    decreases (if 0 < m < 0x800000 {
        0x800000 - m
    } else {
        0
    }),
{
    if m <= 0 || m >= 0x800000 {
        (m, e)
    } else {
        norm_sub(2 * m, e - 1)
    }
}

/// The 64-bit encoding of the value the 32-bit encoding `b` denotes.
///
/// NaN fractions keep their payload bits, shifted into the wider fraction
/// field, which is how the x86 conversion instruction behaves for quiet NaNs.
pub open spec fn promote_f32_bits(b: u32) -> u64 {
    let s = f32_sign(b);
    let e = f32_exp(b);
    let f = f32_frac(b);
    if e == 0xff {
        (s << 63) | (0x7ffu64 << 52) | ((f as u64) << 29)
    } else if e == 0 && f == 0 {
        s << 63
    } else if e == 0 {
        let norm = norm_sub(f, -126);
        (s << 63) | (((norm.1 + 1023) as u64) << 52) | (((norm.0 - 0x800000) as u64) << 29)
    } else {
        (s << 63) | (((e + 896) as u64) << 52) | ((f as u64) << 29)
    }
}

/// Promote a 32-bit float, given as its bit pattern, to the 64-bit encoding.
pub fn promote_f32(b: u32) -> (r: u64)
    ensures
        r == promote_f32_bits(b),
{
    let s: u64 = ((b >> 31) & 1) as u64;
    let e: u32 = (b >> 23) & 0xff;
    let f: u32 = b & 0x7fffff;
    proof {
        assert((b >> 23) & 0xff < 256 && (b & 0x7fffff) < 0x800000 && ((b >> 31) & 1) < 2)
            by (bit_vector);
    }
    if e == 0xff {
        (s << 63) | (0x7ffu64 << 52) | ((f as u64) << 29)
    } else if e == 0 && f == 0 {
        s << 63
    } else if e == 0 {
        let mut m: u32 = f;
        let mut ee: i32 = -126;
        proof {
            assert(norm_sub(f32_frac(b), -126) == norm_sub(m as int, ee as int));
            assert(m >= (1u32 << 0u32)) by (bit_vector)
                requires
                    m > 0,
            ;
        }
        while m & 0x800000 == 0
            invariant
                0 < m < 0x1000000,
                -149 <= ee <= -126,
                m >= (1u32 << ((-126 - ee) as u32)),
                norm_sub(f32_frac(b), -126) == norm_sub(m as int, ee as int),
            decreases 0x1000000 - m,
        {
            let ghost k: u32 = (-126 - ee) as u32;
            proof {
                assert(k <= 23);
                assert(m < 0x800000) by (bit_vector)
                    requires
                        m & 0x800000 == 0 && m < 0x1000000,
                ;
                assert(k < 23) by (bit_vector)
                    requires
                        k <= 23 && m >= (1u32 << k) && m < 0x800000,
                ;
                assert((m << 1) == 2 * m && 2 * m < 0x1000000 && (m << 1) >= (1u32 << ((k
                    + 1) as u32))) by (bit_vector)
                    requires
                        k < 23 && m >= (1u32 << k) && 0 < m < 0x800000,
                ;
            }
            m = m << 1;
            ee = ee - 1;
            proof {
                assert(((-126 - ee) as u32) == k + 1);
            }
        }
        proof {
            assert(m >= 0x800000) by (bit_vector)
                requires
                    m & 0x800000 != 0 && m < 0x1000000,
            ;
        }
        proof {
            assert(norm_sub(m as int, ee as int) == (m as int, ee as int));
        }
        (s << 63) | (((ee + 1023) as u64) << 52) | (((m - 0x800000) as u64) << 29)
    } else {
        (s << 63) | (((e + 896) as u64) << 52) | ((f as u64) << 29)
    }
}

} // verus!
