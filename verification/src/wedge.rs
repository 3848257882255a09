//! Outline of one wedge: an annular sector sampled at every whole degree.

use vstd::prelude::*;
use crate::layout::{INNER_RADIUS, OUTER_RADIUS};

verus! {

/// A point given by its angle and its distance from the window's centre.
///
/// Angles grow clockwise on screen (the y axis points down) and are not reduced:
/// 390 degrees names the same direction as 30 degrees.
#[derive(Clone, Copy, Debug, PartialEq, Eq, Structural)]
pub struct PolarPoint {
    /// Angle in whole degrees.
    pub degrees: i32,
    /// Distance from the centre, in length units.
    pub radius: u32,
}

/// Number of whole degrees sampled in `[start_deg, end_deg)`; zero for an empty range.
pub open spec fn arc_span(start_deg: i32, end_deg: i32) -> nat {
    if start_deg < end_deg {
        (end_deg - start_deg) as nat
    } else {
        0
    }
}

/// The outline of the wedge over `[start_deg, end_deg)`: the outer arc walked forward,
/// one vertex per degree, then the inner arc walked backward over the same degrees.
pub open spec fn spec_arc_points(start_deg: i32, end_deg: i32) -> Seq<PolarPoint> {
    let span = arc_span(start_deg, end_deg);
    Seq::new(
        2 * span,
        |i: int|
            if i < span {
                PolarPoint { degrees: (start_deg + i) as i32, radius: OUTER_RADIUS }
            } else {
                PolarPoint { degrees: (end_deg - 1 - (i - span)) as i32, radius: INNER_RADIUS }
            },
    )
}

/// Builds the closed outline of the wedge over `[start_deg, end_deg)`.
///
/// The first half of the outline lies on the outer radius, the second half on the
/// inner radius; the last vertex is at the angle of the first, so the polygon closes
/// along the radial edge.
pub fn arc_points(start_deg: i32, end_deg: i32) -> (points: Vec<PolarPoint>)
    ensures
        points@ == spec_arc_points(start_deg, end_deg),
        points@.len() == 2 * arc_span(start_deg, end_deg),
        forall|i: int|
            0 <= i < arc_span(start_deg, end_deg) ==> {
                &&& (#[trigger] points@[i]).radius == OUTER_RADIUS
                &&& points@[i].degrees == start_deg + i
            },
        forall|i: int|
            arc_span(start_deg, end_deg) <= i < 2 * arc_span(start_deg, end_deg) ==> {
                &&& (#[trigger] points@[i]).radius == INNER_RADIUS
                &&& points@[i].degrees == end_deg - 1 - (i - arc_span(start_deg, end_deg))
            },
{
    let ghost span = arc_span(start_deg, end_deg);
    let mut points: Vec<PolarPoint> = Vec::new();
    let mut theta: i32 = start_deg;
    while theta < end_deg
        invariant
            span == arc_span(start_deg, end_deg),
            start_deg <= theta,
            start_deg < end_deg ==> theta <= end_deg,
            start_deg < end_deg ==> points@.len() == theta - start_deg,
            start_deg >= end_deg ==> points@.len() == 0,
            forall|i: int|
                0 <= i < points@.len() ==> #[trigger] points@[i] == spec_arc_points(
                    start_deg,
                    end_deg,
                )[i],
        decreases end_deg - theta,
    {
        points.push(PolarPoint { degrees: theta, radius: OUTER_RADIUS });
        theta = theta + 1;
    }
    let mut theta: i32 = end_deg;
    while theta > start_deg
        invariant
            span == arc_span(start_deg, end_deg),
            theta <= end_deg,
            start_deg < end_deg ==> start_deg <= theta,
            start_deg < end_deg ==> points@.len() == span + (end_deg - theta),
            start_deg >= end_deg ==> points@.len() == 0,
            forall|i: int|
                0 <= i < points@.len() ==> #[trigger] points@[i] == spec_arc_points(
                    start_deg,
                    end_deg,
                )[i],
        decreases theta - start_deg,
    {
        theta = theta - 1;
        points.push(PolarPoint { degrees: theta, radius: INNER_RADIUS });
    }
    assert(points@ =~= spec_arc_points(start_deg, end_deg));
    points
}

/// The two arcs of an outline mirror each other: the vertex at place `i` and the
/// vertex at the same distance from the end lie in the same direction, one on the
/// outer and one on the inner radius. In particular the last vertex lies in the
/// direction of the first.
pub proof fn lemma_outline_mirrors(start_deg: i32, end_deg: i32, i: int)
    requires
        0 <= i < arc_span(start_deg, end_deg),
    ensures
        spec_arc_points(start_deg, end_deg)[i].degrees == spec_arc_points(
            start_deg,
            end_deg,
        )[2 * arc_span(start_deg, end_deg) - 1 - i].degrees,
        spec_arc_points(start_deg, end_deg)[i].radius == OUTER_RADIUS,
        spec_arc_points(start_deg, end_deg)[2 * arc_span(start_deg, end_deg) - 1 - i].radius
            == INNER_RADIUS,
{
}

/// Every vertex of an outline lies in a direction of the range.
pub proof fn lemma_outline_stays_in_range(start_deg: i32, end_deg: i32, i: int)
    requires
        0 <= i < 2 * arc_span(start_deg, end_deg),
    ensures
        start_deg <= spec_arc_points(start_deg, end_deg)[i].degrees < end_deg,
{
}

/// Every direction of the range has its vertex on the outer arc.
pub proof fn lemma_direction_has_vertex(start_deg: i32, end_deg: i32, degrees: i32)
    requires
        start_deg <= degrees < end_deg,
    ensures
        spec_arc_points(start_deg, end_deg)[degrees - start_deg] == (PolarPoint {
            degrees,
            radius: OUTER_RADIUS,
        }),
{
}

} // verus!
