//! Peak levels and the colour they are shown in.
//!
//! A peak arrives as the bit pattern of an IEEE 754 single-precision number:
//! one sign bit, eight exponent bits, twenty-three fraction bits. The meter
//! promises values between 0.0 and 1.0; every other pattern is handled too.

use vstd::prelude::*;
use vstd::arithmetic::power2::{
    pow2,
    lemma2_to64,
    lemma2_to64_rest,
    lemma_pow2_adds,
    lemma_pow2_pos,
    lemma_pow2_strictly_increases,
    lemma_pow2_unfold,
};
use vstd::arithmetic::div_mod::{
    lemma_basic_div,
    lemma_div_is_ordered,
    lemma_div_is_ordered_by_denominator,
    lemma_div_multiples_vanish_quotient,
    lemma_fundamental_div_mod,
    lemma_mod_bound,
};

verus! {

/// Bit pattern of 0.0.
pub const SILENCE: u32 = 0;

/// Bit pattern of 1.0.
pub const FULL_SCALE: u32 = 0x3F80_0000;

/// The brightest red.
pub const MAX_RED: u8 = 255;

/// The sign bit: 1 for a negative number (and for negative zero).
pub open spec fn sign_field(bits: u32) -> nat {
    (bits / 0x8000_0000) as nat
}

/// The biased exponent, between 0 and 255.
pub open spec fn exponent_field(bits: u32) -> nat {
    ((bits / 0x80_0000) % 256) as nat
}

/// The twenty-three fraction bits.
pub open spec fn fraction_field(bits: u32) -> nat {
    (bits % 0x80_0000) as nat
}

/// Whether the pattern is not a number.
pub open spec fn is_nan(bits: u32) -> bool {
    exponent_field(bits) == 255 && fraction_field(bits) != 0
}

/// Whether the pattern is a number other than an infinity.
pub open spec fn is_finite(bits: u32) -> bool {
    exponent_field(bits) < 255
}

/// The absolute value of a finite pattern, counted in units of 2^-149, the
/// smallest positive single-precision number. Every finite single-precision
/// number is a whole multiple of that unit.
pub open spec fn magnitude(bits: u32) -> nat {
    if exponent_field(bits) == 0 {
        fraction_field(bits)
    } else {
        (0x80_0000 + fraction_field(bits)) * pow2((exponent_field(bits) - 1) as nat)
    }
}

/// The value of a finite pattern in units of 2^-149, with its sign.
pub open spec fn signed_magnitude(bits: u32) -> int {
    if sign_field(bits) == 1 {
        -(magnitude(bits) as int)
    } else {
        magnitude(bits) as int
    }
}

/// 255 times the absolute value of a finite pattern, rounded down to a whole number.
pub open spec fn scaled_magnitude(bits: u32) -> nat {
    (255 * magnitude(bits)) / pow2(149)
}

/// The red intensity for a peak: 255 times the peak, rounded toward zero and
/// held within 0..=255. Negative numbers and patterns that are not a number give 0,
/// positive infinity gives 255.
pub open spec fn spec_red_intensity(bits: u32) -> nat {
    if sign_field(bits) == 1 || is_nan(bits) {
        0
    } else if !is_finite(bits) {
        255
    } else if scaled_magnitude(bits) > 255 {
        255
    } else {
        scaled_magnitude(bits)
    }
}

/// Whether the number `low` is at most the number `high`; neither may be a pattern
/// that is not a number. Negative infinity lies below and positive infinity above
/// every finite number.
pub open spec fn peak_le(low: u32, high: u32) -> bool {
    if !is_finite(low) {
        sign_field(low) == 1 || (!is_finite(high) && sign_field(high) == 0)
    } else if !is_finite(high) {
        sign_field(high) == 0
    } else {
        signed_magnitude(low) <= signed_magnitude(high)
    }
}

/// 2^149 splits into the weight of the exponent and the shift that remains.
proof fn lemma_split_unit(exponent: nat)
    requires
        1 <= exponent <= 150,
    ensures
        pow2(149) == pow2((exponent - 1) as nat) * pow2((150 - exponent) as nat),
        pow2((exponent - 1) as nat) > 0,
        pow2((150 - exponent) as nat) > 0,
{
    lemma_pow2_adds((exponent - 1) as nat, (150 - exponent) as nat);
    lemma_pow2_pos((exponent - 1) as nat);
    lemma_pow2_pos((150 - exponent) as nat);
}

/// For a normal number the scaled value is 255 times the significand, shifted right
/// by 150 less the exponent field.
pub proof fn lemma_scaled_magnitude_of_normal(bits: u32)
    requires
        1 <= exponent_field(bits) <= 150,
    ensures
        scaled_magnitude(bits) == (255 * (0x80_0000 + fraction_field(bits))) / pow2(
            (150 - exponent_field(bits)) as nat,
        ),
{
    let e = exponent_field(bits);
    let m = (0x80_0000 + fraction_field(bits)) as int;
    let weight = pow2((e - 1) as nat) as int;
    let rest = pow2((150 - e) as nat) as int;
    lemma_split_unit(e);
    lemma_div_multiples_vanish_quotient(weight, 255 * m, rest);
    assert(255 * (m * weight) == weight * (255 * m)) by (nonlinear_arith);
}

/// From 1.0 upward the scaled value reaches 255.
proof fn lemma_scaled_saturates(bits: u32)
    requires
        127 <= exponent_field(bits) < 255,
    ensures
        scaled_magnitude(bits) >= 255,
{
    let e = exponent_field(bits);
    let m = (0x80_0000 + fraction_field(bits)) as int;
    let weight = pow2((e - 1) as nat) as int;
    lemma2_to64();
    lemma_pow2_adds(23, 126);
    if e > 127 {
        lemma_pow2_strictly_increases(126, (e - 1) as nat);
    }
    assert(weight >= pow2(126));
    assert(m * weight >= 0x80_0000 * pow2(126)) by (nonlinear_arith)
        requires
            m >= 0x80_0000,
            weight >= pow2(126),
    ;
    assert(magnitude(bits) >= pow2(149));
    lemma_pow2_pos(149);
    let unit = pow2(149) as int;
    lemma_div_is_ordered(255 * unit, 255 * magnitude(bits) as int, unit);
    assert((255 * unit) / unit == 255) by (nonlinear_arith)
        requires
            unit > 0,
    ;
}

/// Silence is shown without any red, full scale in the brightest red.
pub proof fn lemma_red_intensity_endpoints()
    ensures
        spec_red_intensity(SILENCE) == 0,
        spec_red_intensity(FULL_SCALE) == 255,
{
    lemma_pow2_pos(149);
    lemma_basic_div(0, pow2(149) as int);
    assert(exponent_field(FULL_SCALE) == 127);
    lemma_scaled_saturates(FULL_SCALE);
}

/// The red intensity is the peak scaled into 0..=255: for a peak between 0.0 and 1.0
/// it is the largest whole number that is at most 255 times the peak.
pub proof fn lemma_red_intensity_brackets_peak(bits: u32)
    requires
        sign_field(bits) == 0,
        is_finite(bits),
        magnitude(bits) <= pow2(149),
    ensures
        spec_red_intensity(bits) * pow2(149) <= 255 * magnitude(bits),
        magnitude(bits) < pow2(149) ==> 255 * magnitude(bits) < (spec_red_intensity(bits) + 1)
            * pow2(149),
        magnitude(bits) == pow2(149) ==> spec_red_intensity(bits) == 255,
{
    let unit = pow2(149) as int;
    let product = 255 * magnitude(bits) as int;
    lemma_pow2_pos(149);
    lemma_fundamental_div_mod(product, unit);
    lemma_mod_bound(product, unit);
    lemma_div_is_ordered(product, 255 * unit, unit);
    assert((255 * unit) / unit == 255) by (nonlinear_arith)
        requires
            unit > 0,
    ;
    assert(scaled_magnitude(bits) <= 255);
    assert(unit * (product / unit) == (product / unit) * unit) by (nonlinear_arith);
    assert((product / unit + 1) * unit == (product / unit) * unit + unit) by (nonlinear_arith);
}

/// A louder peak is never shown in less red: the colour mapping is monotonic
/// over all numbers, the infinities included.
pub proof fn lemma_red_intensity_monotonic(quieter: u32, louder: u32)
    requires
        !is_nan(quieter),
        !is_nan(louder),
        peak_le(quieter, louder),
    ensures
        spec_red_intensity(quieter) <= spec_red_intensity(louder),
{
    if sign_field(quieter) == 0 && is_finite(quieter) && is_finite(louder) {
        lemma_pow2_pos(149);
        if sign_field(louder) == 1 {
            assert(magnitude(quieter) == 0);
            lemma_basic_div(0, pow2(149) as int);
        } else {
            lemma_div_is_ordered(
                255 * magnitude(quieter) as int,
                255 * magnitude(louder) as int,
                pow2(149) as int,
            );
        }
    }
}

/// Among patterns with a clear sign bit that are numbers, the order of the patterns
/// is the order of the numbers they stand for.
pub proof fn lemma_bit_order_is_numeric_order(low: u32, high: u32)
    requires
        sign_field(low) == 0,
        sign_field(high) == 0,
        !is_nan(low),
        !is_nan(high),
        low <= high,
    ensures
        peak_le(low, high),
{
    let e_low = exponent_field(low);
    let e_high = exponent_field(high);
    let f_low = fraction_field(low) as int;
    let f_high = fraction_field(high) as int;
    assert(low == e_low * 0x80_0000 + f_low);
    assert(high == e_high * 0x80_0000 + f_high);
    assert(e_low <= e_high);
    if is_finite(low) && is_finite(high) {
        if e_low == e_high {
            if e_low > 0 {
                let weight = pow2((e_low - 1) as nat) as int;
                assert((0x80_0000 + f_low) * weight <= (0x80_0000 + f_high) * weight)
                    by (nonlinear_arith)
                    requires
                        f_low <= f_high,
                        weight >= 0,
                ;
            }
        } else if e_low == 0 {
            let weight = pow2((e_high - 1) as nat) as int;
            lemma_pow2_pos((e_high - 1) as nat);
            assert(f_low <= (0x80_0000 + f_high) * weight) by (nonlinear_arith)
                requires
                    f_low < 0x80_0000,
                    f_high >= 0,
                    weight >= 1,
            ;
        } else {
            let weight_low = pow2((e_low - 1) as nat) as int;
            let weight_high = pow2((e_high - 1) as nat) as int;
            lemma_pow2_unfold(e_low);
            if e_low < e_high - 1 {
                lemma_pow2_strictly_increases(e_low, (e_high - 1) as nat);
            }
            assert(2 * weight_low <= weight_high);
            assert((0x80_0000 + f_low) * weight_low <= (0x80_0000 + f_high) * weight_high)
                by (nonlinear_arith)
                requires
                    0 <= f_low < 0x80_0000,
                    0 <= f_high,
                    0 <= weight_low,
                    2 * weight_low <= weight_high,
            ;
        }
    }
}

/// Computes 2^`exponent`.
fn power_of_two(exponent: u32) -> (power: u64)
    requires
        exponent < 64,
    ensures
        power == pow2(exponent as nat),
{
    let mut power: u64 = 1;
    let mut done: u32 = 0;
    proof {
        lemma2_to64();
    }
    while done < exponent
        invariant
            done <= exponent < 64,
            power == pow2(done as nat),
        decreases exponent - done,
    {
        proof {
            lemma_pow2_unfold((done + 1) as nat);
            lemma2_to64_rest();
            if done + 1 < 63 {
                lemma_pow2_strictly_increases((done + 1) as nat, 63);
            }
        }
        power = power * 2;
        done = done + 1;
    }
    power
}

/// Red intensity, from 0 to 255, for a peak given as single-precision bits.
pub fn red_intensity(bits: u32) -> (red: u8)
    ensures
        red == spec_red_intensity(bits),
{
    let sign: u32 = bits / 0x8000_0000;
    let exponent: u32 = (bits / 0x80_0000) % 256;
    let fraction: u32 = bits % 0x80_0000;
    if sign == 1 {
        return 0;
    }
    if exponent == 255 {
        return if fraction == 0 {
            MAX_RED
        } else {
            0
        };
    }
    if exponent >= 127 {
        proof {
            lemma_scaled_saturates(bits);
        }
        return MAX_RED;
    }
    if exponent < 119 {
        proof {
            lemma2_to64();
            if exponent == 0 {
                lemma_pow2_strictly_increases(32, 149);
                lemma_basic_div(255 * fraction as int, pow2(149) as int);
            } else {
                lemma_scaled_magnitude_of_normal(bits);
                if exponent < 118 {
                    lemma_pow2_strictly_increases(32, (150 - exponent) as nat);
                }
                lemma_basic_div(
                    255 * (0x80_0000 + fraction) as int,
                    pow2((150 - exponent) as nat) as int,
                );
            }
        }
        return 0;
    }
    let significand: u64 = 0x80_0000 + fraction as u64;
    let divisor: u64 = power_of_two(150 - exponent);
    proof {
        lemma_scaled_magnitude_of_normal(bits);
        lemma2_to64();
        if exponent < 126 {
            lemma_pow2_strictly_increases(24, (150 - exponent) as nat);
        }
        assert(divisor >= 0x100_0000);
        lemma_div_is_ordered((255 * significand) as int, 255 * 0x100_0000 - 1, divisor as int);
        lemma_div_is_ordered_by_denominator(
            255 * 0x100_0000 - 1,
            0x100_0000,
            divisor as int,
        );
    }
    let scaled: u64 = 255 * significand / divisor;
    scaled as u8
}

} // verus!
