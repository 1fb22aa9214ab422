use vstd::prelude::*;
use vstd::arithmetic::div_mod::lemma_multiply_divide_lt;
use vstd::bits::lemma_u64_shr_is_div;
use vstd::arithmetic::power2::{
    lemma2_to64, lemma2_to64_rest, lemma_pow2_adds, lemma_pow2_strictly_increases,
    lemma_pow2_unfold, pow2,
};

verus! {

/// The weight of the sign bit of a double-precision pattern.
pub const SIGN_BIT: u64 = 0x8000_0000_0000_0000;

/// The weight of the lowest exponent bit of a double-precision pattern.
pub const EXPONENT_UNIT: u64 = 0x0010_0000_0000_0000;

/// The pattern of positive infinity: every larger magnitude is a NaN.
pub const INFINITY_BITS: u64 = 0x7FF0_0000_0000_0000;

/// The pattern of the machine epsilon, `2^-52`.
pub const EPSILON_BITS: u64 = 0x3CB0_0000_0000_0000;

/// The position of the highest set bit of `v`; 0 for 0 and 1.
pub open spec fn floor_log2(v: nat) -> nat
    decreases v,
{
    if v <= 1 {
        0
    } else {
        1 + floor_log2(v / 2)
    }
}

/// The exponent and fraction fields of the double that equals
/// `v * 2^(bias - 1023)`, for `v > 0`: with `p` the position of the highest
/// set bit of `v`, the exponent field is `bias + p` and the fraction holds
/// the bits of `v` below that one, moved up against the exponent.
pub open spec fn normalized(v: nat, bias: nat) -> int {
    let p = floor_log2(v);
    (bias + p) * pow2(52) + (v - pow2(p)) * pow2((52 - p) as nat)
}

/// The double-precision pattern of the whole number `v`, which is exact
/// for every `v` below `2^53`.
pub open spec fn binary64_of_nat(v: nat) -> int {
    if v == 0 {
        0
    } else {
        normalized(v, 1023)
    }
}

/// The double-precision pattern of the number that the single-precision
/// pattern `b` stands for. Zeros, subnormal numbers and infinities keep
/// their value and sign; a NaN stays a NaN with its payload and has its
/// quiet bit set.
pub open spec fn widen_binary32(b: u32) -> int {
    let sign: nat = (b / 0x8000_0000) as nat;
    let exponent: nat = ((b / 0x80_0000) % 256) as nat;
    let fraction: nat = (b % 0x80_0000) as nat;
    let magnitude: int = if exponent == 255 {
        if fraction == 0 {
            INFINITY_BITS as int
        } else if fraction >= 0x40_0000 {
            INFINITY_BITS as int + fraction * 0x2000_0000
        } else {
            INFINITY_BITS as int + 0x8_0000_0000_0000 + fraction * 0x2000_0000
        }
    } else if exponent == 0 {
        if fraction == 0 {
            0int
        } else {
            normalized(fraction, 874)
        }
    } else {
        ((exponent + 896) * EXPONENT_UNIT as nat + fraction * 0x2000_0000) as int
    };
    sign * SIGN_BIT as nat + magnitude
}

/// The pattern with its sign bit cleared.
pub open spec fn magnitude_of(bits: u64) -> u64 {
    if bits >= SIGN_BIT {
        (bits - SIGN_BIT) as u64
    } else {
        bits
    }
}

/// Whether the pattern is a NaN.
pub open spec fn is_nan(bits: u64) -> bool {
    magnitude_of(bits) > INFINITY_BITS
}

/// Whether the absolute value of the number is above the machine epsilon.
/// A NaN is above nothing.
pub open spec fn exceeds_epsilon(bits: u64) -> bool {
    !is_nan(bits) && magnitude_of(bits) > EPSILON_BITS
}

/// Whether the number is zero, of either sign.
pub open spec fn is_zero(bits: u64) -> bool {
    magnitude_of(bits) == 0
}

/// The whole number that the double is cut down to by dropping its
/// fraction, where that is a number of 32 bits without a sign. Every
/// number above -1 and below 1 is cut down to 0. A number of -1 or less,
/// one of `2^32` or more, an infinity and a NaN have none.
pub open spec fn truncated(bits: u64) -> Option<u32> {
    let exponent = magnitude_of(bits) / EXPONENT_UNIT;
    let fraction = magnitude_of(bits) % EXPONENT_UNIT;
    if exponent < 1023 {
        Some(0u32)
    } else if bits >= SIGN_BIT || exponent > 1054 {
        None
    } else {
        Some(((EXPONENT_UNIT + fraction) / pow2((1075 - exponent) as nat) as int) as u32)
    }
}

/// Between two neighbouring powers of two the highest set bit is known.
pub proof fn lemma_floor_log2_between(v: nat, p: nat)
    requires
        pow2(p) <= v < pow2(p + 1),
    ensures
        floor_log2(v) == p,
    decreases p,
{
    lemma_pow2_unfold(p + 1);
    if p == 0 {
        lemma2_to64();
    } else {
        lemma_pow2_unfold(p);
        lemma_floor_log2_between(v / 2, (p - 1) as nat);
    }
}

/// Computes `normalized(v, bias)`.
fn normalize(v: u64, bias: u64) -> (bits: u64)
    requires
        0 < v < 0x1_0000_0000,
        bias <= 1023,
    ensures
        bits == normalized(v as nat, bias as nat),
        bits < (bias + 32) * EXPONENT_UNIT,
{
    let mut top: u64 = 1;
    let mut p: u64 = 0;
    let mut scale: u64 = EXPONENT_UNIT;
    proof {
        lemma2_to64();
        lemma2_to64_rest();
    }
    while v - top >= top
        invariant
            top == pow2(p as nat),
            p <= 31,
            scale == pow2((52 - p) as nat),
            top <= v < 0x1_0000_0000,
        decreases v - top,
    {
        proof {
            lemma_pow2_unfold((p + 1) as nat);
            lemma_pow2_unfold((52 - p) as nat);
            lemma2_to64();
            if p >= 31 {
                lemma_pow2_strictly_increases(32, (p + 1) as nat);
            }
        }
        top = top * 2;
        p = p + 1;
        scale = scale / 2;
    }
    proof {
        lemma_pow2_unfold((p + 1) as nat);
        lemma_floor_log2_between(v as nat, p as nat);
        lemma_pow2_adds(p as nat, (52 - p) as nat);
        lemma2_to64_rest();
        assert((v - top) * scale < top * scale) by (nonlinear_arith)
            requires
                v - top < top,
                scale > 0,
        ;
        assert((bias + p) * EXPONENT_UNIT <= (bias + 31) * EXPONENT_UNIT) by (nonlinear_arith)
            requires
                p <= 31,
        ;
    }
    (bias + p) * EXPONENT_UNIT + (v - top) * scale
}

/// The double-precision pattern of a whole number.
pub fn encode_whole(v: u32) -> (bits: u64)
    ensures
        bits == binary64_of_nat(v as nat),
{
    if v == 0 {
        0
    } else {
        normalize(v as u64, 1023)
    }
}

/// The double-precision pattern of a single-precision number.
pub fn widen_single(b: u32) -> (bits: u64)
    ensures
        bits == widen_binary32(b),
{
    let sign: u64 = (b / 0x8000_0000) as u64;
    let exponent: u64 = ((b / 0x80_0000) % 256) as u64;
    let fraction: u64 = (b % 0x80_0000) as u64;
    let magnitude: u64 = if exponent == 255 {
        if fraction == 0 {
            INFINITY_BITS
        } else if fraction >= 0x40_0000 {
            INFINITY_BITS + fraction * 0x2000_0000
        } else {
            INFINITY_BITS + 0x8_0000_0000_0000 + fraction * 0x2000_0000
        }
    } else if exponent == 0 {
        if fraction == 0 {
            0
        } else {
            normalize(fraction, 874)
        }
    } else {
        assert((exponent + 896) * EXPONENT_UNIT <= 1150 * EXPONENT_UNIT) by (nonlinear_arith)
            requires
                exponent <= 254,
        ;
        (exponent + 896) * EXPONENT_UNIT + fraction * 0x2000_0000
    };
    sign * SIGN_BIT + magnitude
}

/// Whether the absolute value of the number is above the machine epsilon.
pub fn is_above_epsilon(bits: u64) -> (yes: bool)
    ensures
        yes == exceeds_epsilon(bits),
{
    let magnitude: u64 = if bits >= SIGN_BIT {
        bits - SIGN_BIT
    } else {
        bits
    };
    magnitude <= INFINITY_BITS && magnitude > EPSILON_BITS
}

/// Whether the number is zero, of either sign.
pub fn is_exactly_zero(bits: u64) -> (yes: bool)
    ensures
        yes == is_zero(bits),
{
    bits == 0 || bits == SIGN_BIT
}


/// The whole number that the double is cut down to, if it has one of 32
/// bits without a sign.
pub fn truncate_to_whole(bits: u64) -> (cut: Option<u32>)
    ensures
        cut == truncated(bits),
{
    let magnitude: u64 = if bits >= SIGN_BIT {
        bits - SIGN_BIT
    } else {
        bits
    };
    let exponent: u64 = magnitude / EXPONENT_UNIT;
    let fraction: u64 = magnitude % EXPONENT_UNIT;
    if exponent < 1023 {
        Some(0)
    } else if bits >= SIGN_BIT || exponent > 1054 {
        None
    } else {
        let shift: u64 = 1075 - exponent;
        let significand: u64 = EXPONENT_UNIT + fraction;
        proof {
            lemma_u64_shr_is_div(significand, shift);
            lemma2_to64();
            if shift > 21 {
                lemma_pow2_strictly_increases(21, shift as nat);
            }
            assert(significand < pow2(shift as nat) * 0x1_0000_0000) by (nonlinear_arith)
                requires
                    significand < 0x20_0000 * 0x1_0000_0000,
                    pow2(shift as nat) >= 0x20_0000,
            ;
            lemma_multiply_divide_lt(significand as int, pow2(shift as nat) as int, 0x1_0000_0000);
        }
        Some((significand >> shift) as u32)
    }
}

} // verus!
