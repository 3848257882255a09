//! Colours and strokes of the shapes that make up a frame.

use vstd::prelude::*;
use crate::peak::{red_intensity, spec_red_intensity};

verus! {

/// A colour with premultiplied alpha, one byte per channel.
#[derive(Clone, Copy, Debug, PartialEq, Eq, Structural)]
pub struct Color {
    pub r: u8,
    pub g: u8,
    pub b: u8,
    pub a: u8,
}

impl Color {
    /// Opaque black: the outline of the wedges and the ground under the rings.
    pub open spec fn spec_black() -> Color {
        Color { r: 0, g: 0, b: 0, a: 255 }
    }

    /// Opaque black.
    #[verifier::when_used_as_spec(spec_black)]
    pub fn black() -> (color: Color)
        ensures
            color == Color::spec_black(),
    {
        Color { r: 0, g: 0, b: 0, a: 255 }
    }

    /// Opaque green: the calibration rings and the two axes.
    pub open spec fn spec_green() -> Color {
        Color { r: 0, g: 255, b: 0, a: 255 }
    }

    /// Opaque green.
    #[verifier::when_used_as_spec(spec_green)]
    pub fn green() -> (color: Color)
        ensures
            color == Color::spec_green(),
    {
        Color { r: 0, g: 255, b: 0, a: 255 }
    }

    /// Opaque light green: the sweep hand.
    pub open spec fn spec_light_green() -> Color {
        Color { r: 144, g: 238, b: 144, a: 255 }
    }

    /// Opaque light green.
    #[verifier::when_used_as_spec(spec_light_green)]
    pub fn light_green() -> (color: Color)
        ensures
            color == Color::spec_light_green(),
    {
        Color { r: 144, g: 238, b: 144, a: 255 }
    }

    /// No colour at all: the fill of an open path.
    pub open spec fn spec_transparent() -> Color {
        Color { r: 0, g: 0, b: 0, a: 0 }
    }

    /// No colour at all.
    #[verifier::when_used_as_spec(spec_transparent)]
    pub fn transparent() -> (color: Color)
        ensures
            color == Color::spec_transparent(),
    {
        Color { r: 0, g: 0, b: 0, a: 0 }
    }
}

/// The line drawn along the edge of a shape.
#[derive(Clone, Copy, Debug, PartialEq, Eq, Structural)]
pub struct Stroke {
    /// Width in length units.
    pub width: u32,
    pub color: Color,
}

/// The fill of a wedge whose channel peaks at `peak_bits`: opaque, with no green
/// and no blue, and the redder the louder.
pub open spec fn spec_fill_color(peak_bits: u32) -> Color {
    Color { r: spec_red_intensity(peak_bits) as u8, g: 0, b: 0, a: 255 }
}

/// The fill of a wedge whose channel peaks at `peak_bits`, given as
/// single-precision bits.
pub fn fill_color(peak_bits: u32) -> (color: Color)
    ensures
        color == spec_fill_color(peak_bits),
        color.r == spec_red_intensity(peak_bits),
        color.g == 0,
        color.b == 0,
        color.a == 255,
{
    Color { r: red_intensity(peak_bits), g: 0, b: 0, a: 255 }
}

} // verus!
