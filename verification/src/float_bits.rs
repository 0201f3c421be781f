//! Integer reading of IEEE-754 double-precision bit patterns.
//!
//! Motion deltas cross the bus as doubles. This crate carries them as their
//! bit patterns and reads them with integer arithmetic only: whether the
//! value is zero, and its truncation to a 32-bit integer (toward zero,
//! saturating at the target range, zero for a not-a-number pattern), which is
//! what injecting the delta into a kernel input event needs.

use vstd::prelude::*;

verus! {

/// Whether `bits` encodes positive or negative zero.
pub open spec fn spec_f64_bits_is_zero(bits: u64) -> bool {
    (bits >> 52) & 0x7ff == 0 && bits & 0xfffffffffffff == 0
}

/// Truncation toward zero of the encoded value, saturated to the `i32`
/// range; a not-a-number pattern truncates to zero.
pub open spec fn spec_f64_trunc_i32(bits: u64) -> i32 {
    let neg = bits >> 63 == 1u64;
    let exp = (bits >> 52) & 0x7ff;
    let frac = bits & 0xfffffffffffff;
    if exp == 0x7ff {
        // An infinity saturates; a not-a-number pattern truncates to zero.
        if frac != 0 {
            0
        } else if neg {
            i32::MIN
        } else {
            i32::MAX
        }
    } else if exp < 1023 {
        // Magnitude below one, zero and subnormals included.
        0
    } else if exp >= 1023 + 31 {
        // Magnitude at least 2^31: outside or at the edge of the range.
        if neg {
            i32::MIN
        } else {
            i32::MAX
        }
    } else {
        // The significand is 2^52 | frac at scale 2^(exp - 1023 - 52):
        // dropping the bits below the binary point truncates toward zero.
        let mag = (0x10000000000000u64 | frac) >> ((1075 - exp) as u64);
        if neg {
            (0 - mag) as i32
        } else {
            mag as i32
        }
    }
}

/// Whether `bits` encodes positive or negative zero.
pub fn f64_bits_is_zero(bits: u64) -> (r: bool)
    ensures
        r == spec_f64_bits_is_zero(bits),
{
    (bits >> 52u64) & 0x7ff == 0 && bits & 0xfffffffffffff == 0
}

/// Truncates the encoded value toward zero, saturating to the `i32` range.
pub fn f64_trunc_i32(bits: u64) -> (r: i32)
    ensures
        r == spec_f64_trunc_i32(bits),
{
    let neg: bool = bits >> 63u64 == 1;
    let exp: u64 = (bits >> 52u64) & 0x7ff;
    let frac: u64 = bits & 0xfffffffffffff;
    if exp == 0x7ff {
        if frac != 0 {
            0
        } else if neg {
            i32::MIN
        } else {
            i32::MAX
        }
    } else if exp < 1023 {
        0
    } else if exp >= 1023 + 31 {
        if neg {
            i32::MIN
        } else {
            i32::MAX
        }
    } else {
        let shift: u64 = 1075 - exp;
        let mag: u64 = (0x10000000000000u64 | frac) >> shift;
        assert((0x10000000000000u64 | (bits & 0xfffffffffffff)) >> ((1075u64 - ((bits >> 52)
            & 0x7ff)) as u64) < 0x80000000u64) by (bit_vector)
            requires
                1023 <= (bits >> 52) & 0x7ff < 1054,
        ;
        let m = mag as i32;
        if neg {
            -m
        } else {
            m
        }
    }
}

} // verus!
