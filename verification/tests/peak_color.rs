use panopticon::color::{fill_color, Color};
use panopticon::peak::{red_intensity, FULL_SCALE, MAX_RED, SILENCE};

/// What a single-precision multiply and a saturating cast give.
fn reference(value: f32) -> u8 {
    (value * 255.) as u8
}

#[test]
fn silence_is_not_red_and_full_scale_is_fully_red() {
    assert_eq!(SILENCE, 0.0f32.to_bits());
    assert_eq!(FULL_SCALE, 1.0f32.to_bits());
    assert_eq!(red_intensity(SILENCE), 0);
    assert_eq!(red_intensity(FULL_SCALE), 255);
    assert_eq!(MAX_RED, 255);
}

#[test]
fn half_scale_rounds_down() {
    assert_eq!(red_intensity(0.5f32.to_bits()), 127);
    assert_eq!(red_intensity(0x3F00_0000), 127);
}

#[test]
fn exact_values_of_the_scaling() {
    assert_eq!(red_intensity(0.25f32.to_bits()), 63);
    assert_eq!(red_intensity(0.75f32.to_bits()), 191);
    assert_eq!(red_intensity(0.1f32.to_bits()), 25);
    assert_eq!(red_intensity(0.2f32.to_bits()), 51);
    assert_eq!(red_intensity(0.999f32.to_bits()), 254);
    assert_eq!(red_intensity(0.00390625f32.to_bits()), 0);
    assert_eq!(red_intensity(0.004f32.to_bits()), 1);
}

#[test]
fn just_below_full_scale_is_not_yet_fully_red() {
    assert_eq!(red_intensity(FULL_SCALE - 1), 254);
    assert_eq!(reference(f32::from_bits(FULL_SCALE - 1)), 254);
}

#[test]
fn values_above_full_scale_saturate() {
    assert_eq!(red_intensity(FULL_SCALE + 1), 255);
    assert_eq!(red_intensity(2.0f32.to_bits()), 255);
    assert_eq!(red_intensity(1.0e30f32.to_bits()), 255);
    assert_eq!(red_intensity(f32::MAX.to_bits()), 255);
    assert_eq!(red_intensity(f32::INFINITY.to_bits()), 255);
}

#[test]
fn negative_values_and_non_numbers_give_no_red() {
    assert_eq!(red_intensity((-0.0f32).to_bits()), 0);
    assert_eq!(red_intensity((-0.5f32).to_bits()), 0);
    assert_eq!(red_intensity((-1.0f32).to_bits()), 0);
    assert_eq!(red_intensity((-1.0e30f32).to_bits()), 0);
    assert_eq!(red_intensity(f32::NEG_INFINITY.to_bits()), 0);
    assert_eq!(red_intensity(f32::NAN.to_bits()), 0);
    assert_eq!(red_intensity(0x7F80_0001), 0);
    assert_eq!(red_intensity(0x7FFF_FFFF), 0);
    assert_eq!(red_intensity(0xFFC0_0000), 0);
}

#[test]
fn tiny_values_give_no_red() {
    assert_eq!(red_intensity(1), 0);
    assert_eq!(red_intensity(0x007F_FFFF), 0);
    assert_eq!(red_intensity(f32::MIN_POSITIVE.to_bits()), 0);
    assert_eq!(red_intensity(1.0e-10f32.to_bits()), 0);
}

#[test]
fn steps_of_the_scale_sit_where_the_product_crosses_a_whole_number() {
    for step in 1..=255u32 {
        let threshold = step as f32 / 255.;
        let bits = threshold.to_bits();
        for candidate in [bits - 2, bits - 1, bits, bits + 1, bits + 2] {
            assert_eq!(
                red_intensity(candidate),
                reference(f32::from_bits(candidate)),
                "bits {:#x}",
                candidate
            );
        }
    }
}

#[test]
fn agrees_with_single_precision_arithmetic_across_the_range() {
    let mut bits: u32 = 0;
    while bits <= 0x4000_0000 {
        assert_eq!(red_intensity(bits), reference(f32::from_bits(bits)), "bits {:#x}", bits);
        bits += 7919;
    }
}

#[test]
fn agrees_with_single_precision_arithmetic_on_every_exponent() {
    for exponent in 0..=255u32 {
        for fraction in [0u32, 1, 0x2A_AAAA, 0x40_0000, 0x7F_FFFF] {
            for sign in [0u32, 1] {
                let bits = sign << 31 | exponent << 23 | fraction;
                assert_eq!(red_intensity(bits), reference(f32::from_bits(bits)), "bits {:#x}", bits);
            }
        }
    }
}

#[test]
fn louder_is_never_less_red() {
    let mut previous = 0u8;
    for thousandth in 0..=1000u32 {
        let value = thousandth as f32 / 1000.;
        let red = red_intensity(value.to_bits());
        assert!(previous <= red);
        previous = red;
    }
    assert_eq!(previous, 255);
    assert!(red_intensity(0.3f32.to_bits()) <= red_intensity(0.30001f32.to_bits()));
    assert!(red_intensity((-3.0f32).to_bits()) <= red_intensity(0.0f32.to_bits()));
    assert!(red_intensity(5.0f32.to_bits()) <= red_intensity(f32::INFINITY.to_bits()));
}

#[test]
fn every_red_level_is_reached() {
    let mut seen = [false; 256];
    for step in 0..=255u32 {
        let value = (step as f32 + 0.5) / 255.;
        seen[red_intensity(value.to_bits()) as usize] = true;
    }
    seen[red_intensity(FULL_SCALE) as usize] = true;
    assert!(seen.iter().all(|reached| *reached));
}

#[test]
fn fill_is_opaque_red_only() {
    assert_eq!(fill_color(FULL_SCALE), Color { r: 255, g: 0, b: 0, a: 255 });
    assert_eq!(fill_color(SILENCE), Color { r: 0, g: 0, b: 0, a: 255 });
    assert_eq!(fill_color(0.5f32.to_bits()), Color { r: 127, g: 0, b: 0, a: 255 });
    assert_eq!(fill_color(f32::NAN.to_bits()), Color { r: 0, g: 0, b: 0, a: 255 });
}

#[test]
fn named_colours() {
    assert_eq!(Color::black(), Color { r: 0, g: 0, b: 0, a: 255 });
    assert_eq!(Color::green(), Color { r: 0, g: 255, b: 0, a: 255 });
    assert_eq!(Color::light_green(), Color { r: 144, g: 238, b: 144, a: 255 });
    assert_eq!(Color::transparent(), Color { r: 0, g: 0, b: 0, a: 0 });
}

/// Every value whose exponent field is `exponent`, against single-precision arithmetic.
fn check_every_fraction(exponent: u32) {
    for fraction in 0..0x80_0000u32 {
        let bits = exponent << 23 | fraction;
        assert_eq!(red_intensity(bits), reference(f32::from_bits(bits)), "bits {:#x}", bits);
    }
}

#[test]
fn every_value_just_below_one_256th() {
    check_every_fraction(118);
}

#[test]
fn every_value_from_one_256th() {
    check_every_fraction(119);
}

#[test]
fn every_value_from_one_128th() {
    check_every_fraction(120);
}

#[test]
fn every_value_from_one_64th() {
    check_every_fraction(121);
}

#[test]
fn every_value_from_one_32nd() {
    check_every_fraction(122);
}

#[test]
fn every_value_from_one_16th() {
    check_every_fraction(123);
}

#[test]
fn every_value_from_one_eighth() {
    check_every_fraction(124);
}

#[test]
fn every_value_from_one_quarter() {
    check_every_fraction(125);
}

#[test]
fn every_value_from_one_half() {
    check_every_fraction(126);
}

#[test]
fn every_value_from_one_to_two() {
    check_every_fraction(127);
}
