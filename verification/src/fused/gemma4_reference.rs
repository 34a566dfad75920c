//! The FP8 conversion of the Gemma 4 kernels, which truncates.

use crate::fused::fp8::{
    between_codes, e4m3_in_f32_units, f32_units, E4M3_MAX_CODE, F32_448,
};
use crate::ids::F32Bits;
use vstd::arithmetic::power2::{lemma2_to64, pow2};
use vstd::bits::lemma_u32_shr_is_div;
use vstd::prelude::*;

verus! {

/// The code of what is not a number.
pub const E4M3_NAN: u8 = 0x7f;

/// The smallest biased exponent whose mantissa is still shifted: below it the
/// shift would drop more bits than a word holds.
pub const LEAST_EXPONENT: u32 = 111;

/// The code of magnitude bits, without its sign: the mantissa is cut off after
/// three bits, and what needs the largest exponent saturates.
pub open spec fn truncated_code(magnitude: int) -> int {
    let e = magnitude / 0x80_0000;
    let m = magnitude % 0x80_0000;
    if magnitude == 0 {
        0
    } else if e >= 135 {
        E4M3_MAX_CODE as int
    } else if e >= 121 {
        (e - 120) * 8 + m / 0x10_0000
    } else {
        (m + 0x80_0000) / (pow2((142 - e) as nat) as int)
    }
}

/// Conversion to FP8 E4M3 by truncation. Both zeros become zero.
pub fn f32_to_fp8_e4m3(v: F32Bits) -> (r: u8)
    requires
        v.is_nan() || v.magnitude() == 0 || v.magnitude() >= LEAST_EXPONENT * 0x80_0000,
    ensures
        r == if v.is_nan() {
            E4M3_NAN as int
        } else {
            truncated_code(v.magnitude()) + if v.0 > 0x8000_0000 {
                0x80int
            } else {
                0
            }
        },
{
    let negative = v.0 >= 0x8000_0000;
    let magnitude: u32 = if negative {
        v.0 - 0x8000_0000
    } else {
        v.0
    };
    if magnitude > 0x7f80_0000 {
        return E4M3_NAN;
    }
    if magnitude == 0 {
        return 0;
    }
    let sign: u8 = if negative {
        0x80
    } else {
        0
    };
    if magnitude > F32_448 {
        return sign + E4M3_MAX_CODE;
    }
    let e: u32 = magnitude / 0x80_0000;
    let m: u32 = magnitude % 0x80_0000;
    if e >= 135 {
        return sign + E4M3_MAX_CODE;
    }
    if e >= 121 {
        return sign + ((e - 120) * 8 + m / 0x10_0000) as u8;
    }
    let full: u32 = m + 0x80_0000;
    let shift: u32 = 142 - e;
    proof {
        lemma_u32_shr_is_div(full, shift);
        truncation_is_small(full as int, shift as nat);
    }
    sign + (full >> shift) as u8
}

proof fn truncation_is_small(full: int, shift: nat)
    requires
        0 <= full < 0x100_0000,
        22 <= shift <= 31,
    ensures
        0 <= full / (pow2(shift) as int) < 4,
{
    lemma2_to64();
    let d = pow2(shift) as int;
    assert(0 <= full / d < 4) by (nonlinear_arith)
        requires
            0 <= full < 0x100_0000,
            d >= 0x40_0000,
    ;
}

/// Below the point of saturation a truncated code is worth no more than what it
/// came from, and the next code is worth more.
pub proof fn truncation_is_the_code_below(magnitude: int)
    requires
        121 * 0x80_0000 <= magnitude < 135 * 0x80_0000,
    ensures
        ({
            let code = truncated_code(magnitude);
            e4m3_in_f32_units(code) <= f32_units(magnitude) < e4m3_in_f32_units(code + 1)
        }),
{
    between_codes(magnitude);
}

} // verus!
