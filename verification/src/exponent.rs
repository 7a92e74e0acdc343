//! The exponent field of a single-precision number.
//!
//! A single-precision number holds its exponent, raised by a bias of 127,
//! in the eight bits above the 23 bits of its fraction. The pattern of the
//! power of two `2^n` is therefore `n + 127` shifted left by 23 bits, with
//! no other bit set.
use vstd::prelude::*;
use crate::element::SimdElement;
use crate::lanes::map_lanes;

verus! {

/// What is added to an exponent before it is stored.
pub const EXP_BIAS: i32 = 0x7f;

/// The bit at which the exponent field starts.
pub const EXP_OFFSET: u32 = 23;

/// The 32-bit pattern with `n + EXP_BIAS` in the exponent field.
pub open spec fn exp2_pattern(n: i32) -> i32 {
    n.wrapping_add(EXP_BIAS).wrapping_shl(EXP_OFFSET)
}

/// The patterns of the powers of two `2^n`, lane by lane.
pub fn exp2_bits(n: <i32 as SimdElement>::Vector) -> (bits: <i32 as SimdElement>::Vector)
    ensures
        i32::lanes(bits) == i32::lanes(n).map_values(|k: i32| exp2_pattern(k)),
{
    let shift = |k: i32| -> (pattern: i32)
        ensures
            pattern == exp2_pattern(k),
        {
            k.wrapping_add(EXP_BIAS).wrapping_shl(EXP_OFFSET)
        };
    map_lanes(&n, shift)
}

/// For an exponent that a normal single-precision number can have, the
/// pattern has a clear sign bit, `n + EXP_BIAS` in its exponent field and a
/// zero fraction.
pub proof fn lemma_exp2_pattern_fields(n: i32)
    requires
        -126 <= n <= 127,
    ensures
        exp2_pattern(n) >= 0,
        (exp2_pattern(n) >> 23) & 0xff == n + EXP_BIAS,
        exp2_pattern(n) & 0x7f_ffff == 0,
        exp2_pattern(n) == (n + EXP_BIAS) * 0x80_0000,
{
    let biased: i32 = (n + EXP_BIAS) as i32;
    assert(n.wrapping_add(EXP_BIAS) == biased);
    let pattern = biased << 23u32;
    assert(pattern >= 0 && (pattern >> 23) & 0xff == biased && pattern & 0x7f_ffff == 0 && pattern
        == biased * 0x80_0000) by (bit_vector)
        requires
            1 <= biased <= 254,
            pattern == biased << 23u32,
    ;
}

} // verus!
