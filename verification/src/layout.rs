//! Fixed layout of the radar display.
//!
//! Every length is held in tenths of a pixel, so that the outer radius, the
//! inner radius and the five calibration rings are all whole numbers.

use vstd::prelude::*;

verus! {

/// Length units per pixel.
pub const UNITS_PER_PIXEL: u32 = 10;

/// Side of the square window, in pixels.
pub const WINDOW_SIZE: u32 = 320;

/// Free space between the outer arc and the window's edge, in pixels.
pub const MARGIN: u32 = 20;

/// Distance of the window's centre from its left and top edges, in length units.
pub const CENTER: u32 = 1600;

/// Radius of the outer arc of every wedge, in length units.
pub const OUTER_RADIUS: u32 = 1400;

/// Tenths of the outer radius at which the inner arc runs.
pub const INNER_TENTHS: u32 = 4;

/// Radius of the inner arc of every wedge, in length units.
pub const INNER_RADIUS: u32 = 560;

/// Number of calibration rings inside the inner arc.
pub const RING_COUNT: u32 = 5;

/// Milliseconds after which the next frame is requested.
pub const REPAINT_AFTER_MS: u64 = 33;

/// The derived constants agree with the window size, the margin and the inner factor.
pub proof fn lemma_layout_constants()
    ensures
        CENTER == WINDOW_SIZE * UNITS_PER_PIXEL / 2,
        OUTER_RADIUS == CENTER - MARGIN * UNITS_PER_PIXEL,
        INNER_RADIUS * 10 == OUTER_RADIUS * INNER_TENTHS,
        0 < INNER_RADIUS < OUTER_RADIUS < CENTER,
{
}

/// Radius of the `ring`-th calibration ring, counted from the outermost (ring 0), as a
/// mathematical function: the inner radius scaled by 5/5, 4/5, 3/5, 2/5 and 1/5.
pub open spec fn spec_ring_radius(ring: nat) -> nat {
    (INNER_RADIUS as nat * ((RING_COUNT as nat - ring) as nat)) / RING_COUNT as nat
}

/// Radius of the `ring`-th calibration ring, counted from the outermost.
pub fn ring_radius(ring: u32) -> (radius: u32)
    requires
        ring < RING_COUNT,
    ensures
        radius == spec_ring_radius(ring as nat),
        radius * RING_COUNT == INNER_RADIUS * (RING_COUNT - ring),
        0 < radius <= INNER_RADIUS,
{
    INNER_RADIUS * (RING_COUNT - ring) / RING_COUNT
}

} // verus!
