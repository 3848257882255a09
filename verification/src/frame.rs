//! One frame of the display: the shapes handed to the renderer on every tick.

use vstd::prelude::*;
use crate::channel::{draw_order, spec_draw_order, ChannelSlot, SLOT_COUNT};
use crate::color::{fill_color, spec_fill_color, Color, Stroke};
use crate::layout::{
    ring_radius,
    spec_ring_radius,
    INNER_RADIUS,
    OUTER_RADIUS,
    REPAINT_AFTER_MS,
    RING_COUNT,
};
use crate::peak::spec_red_intensity;
use crate::sweep::{lemma_sweep_period, spec_sweep_angle, sweep_angle, REVOLUTION_MS};
use crate::wedge::{arc_points, arc_span, spec_arc_points, PolarPoint};

verus! {

/// Width of the outlines, the rings and the axes: one pixel.
pub const THIN: u32 = 10;

/// Width of the sweep hand: two pixels.
pub const BOLD: u32 = 20;

/// A shape for the renderer. All points are relative to the window's centre.
#[derive(Debug, PartialEq, Eq)]
pub enum Shape {
    /// A line through `points`, closed back to the first point and filled if `closed`.
    Path { points: Vec<PolarPoint>, closed: bool, fill: Color, stroke: Stroke },
    /// A circle round the window's centre.
    Circle { radius: u32, fill: Color, stroke: Stroke },
}

/// What a `Shape` stands for.
pub enum ShapeView {
    Path { points: Seq<PolarPoint>, closed: bool, fill: Color, stroke: Stroke },
    Circle { radius: u32, fill: Color, stroke: Stroke },
}

impl View for Shape {
    type V = ShapeView;

    open spec fn view(&self) -> ShapeView {
        match *self {
            Shape::Path { points, closed, fill, stroke } => ShapeView::Path {
                points: points@,
                closed,
                fill,
                stroke,
            },
            Shape::Circle { radius, fill, stroke } => ShapeView::Circle { radius, fill, stroke },
        }
    }
}

/// What a list of shapes stands for, shape by shape.
pub open spec fn shapes_view(shapes: Seq<Shape>) -> Seq<ShapeView> {
    Seq::new(shapes.len(), |i: int| shapes[i]@)
}

/// The shapes of one tick, in drawing order, and the delay after which the next
/// tick is asked for.
#[derive(Debug, PartialEq, Eq)]
pub struct Frame {
    pub shapes: Vec<Shape>,
    pub repaint_after_ms: u64,
}

/// What a `Frame` stands for.
pub struct FrameView {
    pub shapes: Seq<ShapeView>,
    pub repaint_after_ms: u64,
}

impl View for Frame {
    type V = FrameView;

    open spec fn view(&self) -> FrameView {
        FrameView { shapes: shapes_view(self.shapes@), repaint_after_ms: self.repaint_after_ms }
    }
}

/// The window's centre.
pub open spec fn spec_center() -> PolarPoint {
    PolarPoint { degrees: 0, radius: 0 }
}

/// The outline of the wedge of `slot`.
pub open spec fn slot_outline(slot: ChannelSlot) -> Seq<PolarPoint> {
    spec_arc_points(slot.start_deg(), slot.end_deg())
}

/// The wedge of `slot` as drawn while the meter reports `peaks`: its outline, closed,
/// outlined in black and filled in the red of its own channel.
pub open spec fn wedge_shape(slot: ChannelSlot, peaks: Seq<u32>) -> ShapeView {
    ShapeView::Path {
        points: slot_outline(slot),
        closed: true,
        fill: spec_fill_color(peaks[slot.channel_index() as int]),
        stroke: Stroke { width: THIN, color: Color::black() },
    }
}

/// The `ring`-th calibration ring, counted from the outermost.
pub open spec fn ring_shape(ring: nat) -> ShapeView {
    ShapeView::Circle {
        radius: spec_ring_radius(ring) as u32,
        fill: Color::black(),
        stroke: Stroke { width: THIN, color: Color::green() },
    }
}

/// The axis through the centre from the direction `from_deg` to the opposite
/// direction `to_deg`, reaching the inner radius on both sides.
pub open spec fn axis_shape(from_deg: i32, to_deg: i32) -> ShapeView {
    ShapeView::Path {
        points: seq![
            PolarPoint { degrees: from_deg, radius: INNER_RADIUS },
            PolarPoint { degrees: to_deg, radius: INNER_RADIUS },
        ],
        closed: false,
        fill: Color::transparent(),
        stroke: Stroke { width: THIN, color: Color::green() },
    }
}

/// The decoration that never changes: five rings from the outermost inward, then the
/// horizontal axis from left to right, then the vertical axis from top to bottom.
pub open spec fn spec_decoration() -> Seq<ShapeView> {
    Seq::new(RING_COUNT as nat, |ring: int| ring_shape(ring as nat)) + seq![
        axis_shape(180, 0),
        axis_shape(270, 90),
    ]
}

/// The sweep hand at `now_ms` milliseconds since the epoch: a line from the centre to
/// the inner radius.
pub open spec fn sweep_shape(now_ms: nat) -> ShapeView {
    ShapeView::Path {
        points: seq![
            spec_center(),
            PolarPoint { degrees: spec_sweep_angle(now_ms) as i32, radius: INNER_RADIUS },
        ],
        closed: false,
        fill: Color::transparent(),
        stroke: Stroke { width: BOLD, color: Color::light_green() },
    }
}

/// The frame for the eight peaks `peaks` at `now_ms` milliseconds since the epoch:
/// the seven wedges in drawing order, the decoration, and the sweep hand on top.
pub open spec fn spec_frame(peaks: Seq<u32>, now_ms: nat) -> FrameView {
    FrameView {
        shapes: Seq::new(SLOT_COUNT as nat, |i: int| wedge_shape(spec_draw_order()[i], peaks))
            + spec_decoration() + seq![sweep_shape(now_ms)],
        repaint_after_ms: REPAINT_AFTER_MS,
    }
}

/// Copies a list of points.
pub fn copy_points(points: &Vec<PolarPoint>) -> (copy: Vec<PolarPoint>)
    ensures
        copy@ == points@,
{
    let mut copy: Vec<PolarPoint> = Vec::new();
    let mut i: usize = 0;
    while i < points.len()
        invariant
            i <= points@.len(),
            copy@ == points@.take(i as int),
        decreases points@.len() - i,
    {
        copy.push(points[i]);
        i = i + 1;
        assert(copy@ =~= points@.take(i as int));
    }
    assert(points@.take(i as int) =~= points@);
    copy
}

impl Shape {
    /// Copies the shape.
    pub fn duplicate(&self) -> (copy: Shape)
        ensures
            copy@ == self@,
    {
        match self {
            Shape::Path { points, closed, fill, stroke } => Shape::Path {
                points: copy_points(points),
                closed: *closed,
                fill: *fill,
                stroke: *stroke,
            },
            Shape::Circle { radius, fill, stroke } => Shape::Circle {
                radius: *radius,
                fill: *fill,
                stroke: *stroke,
            },
        }
    }
}

impl Clone for Shape {
    fn clone(&self) -> (copy: Shape)
        ensures
            copy@ == self@,
    {
        self.duplicate()
    }
}

/// Copies a list of shapes.
pub fn copy_shapes(shapes: &Vec<Shape>) -> (copy: Vec<Shape>)
    ensures
        shapes_view(copy@) == shapes_view(shapes@),
{
    let mut copy: Vec<Shape> = Vec::new();
    let mut i: usize = 0;
    while i < shapes.len()
        invariant
            i <= shapes@.len(),
            copy@.len() == i,
            forall|k: int| 0 <= k < i ==> (#[trigger] copy@[k])@ == shapes@[k]@,
        decreases shapes@.len() - i,
    {
        copy.push(shapes[i].duplicate());
        i = i + 1;
    }
    assert(shapes_view(copy@) =~= shapes_view(shapes@));
    copy
}

impl Clone for Frame {
    fn clone(&self) -> (copy: Frame)
        ensures
            copy@ == self@,
    {
        Frame { shapes: copy_shapes(&self.shapes), repaint_after_ms: self.repaint_after_ms }
    }
}

/// Builds the outline of the wedge of `slot`.
pub fn build_wedge(slot: ChannelSlot) -> (points: Vec<PolarPoint>)
    ensures
        points@ == slot_outline(slot),
{
    arc_points(slot.start_deg(), slot.end_deg())
}

/// Builds an axis through the centre.
fn build_axis(from_deg: i32, to_deg: i32) -> (axis: Shape)
    ensures
        axis@ == axis_shape(from_deg, to_deg),
{
    let mut points: Vec<PolarPoint> = Vec::new();
    points.push(PolarPoint { degrees: from_deg, radius: INNER_RADIUS });
    points.push(PolarPoint { degrees: to_deg, radius: INNER_RADIUS });
    assert(points@ =~= seq![
        PolarPoint { degrees: from_deg, radius: INNER_RADIUS },
        PolarPoint { degrees: to_deg, radius: INNER_RADIUS },
    ]);
    Shape::Path {
        points,
        closed: false,
        fill: Color::transparent(),
        stroke: Stroke { width: THIN, color: Color::green() },
    }
}

/// Builds the decoration that never changes: the five calibration rings and the two
/// axes.
pub fn build_decoration() -> (shapes: Vec<Shape>)
    ensures
        shapes_view(shapes@) == spec_decoration(),
{
    let mut shapes: Vec<Shape> = Vec::new();
    let mut ring: u32 = 0;
    while ring < RING_COUNT
        invariant
            ring <= RING_COUNT,
            shapes@.len() == ring,
            forall|i: int| 0 <= i < ring ==> (#[trigger] shapes@[i])@ == ring_shape(i as nat),
        decreases RING_COUNT - ring,
    {
        shapes.push(
            Shape::Circle {
                radius: ring_radius(ring),
                fill: Color::black(),
                stroke: Stroke { width: THIN, color: Color::green() },
            },
        );
        ring = ring + 1;
    }
    shapes.push(build_axis(180, 0));
    shapes.push(build_axis(270, 90));
    assert(shapes_view(shapes@) =~= spec_decoration());
    shapes
}

/// Builds the sweep hand for the angle `degrees`.
fn build_sweep(degrees: u32) -> (hand: Shape)
    requires
        degrees < 360,
    ensures
        hand@ == (ShapeView::Path {
            points: seq![spec_center(), PolarPoint { degrees: degrees as i32, radius: INNER_RADIUS }],
            closed: false,
            fill: Color::transparent(),
            stroke: Stroke { width: BOLD, color: Color::light_green() },
        }),
{
    let mut points: Vec<PolarPoint> = Vec::new();
    points.push(PolarPoint { degrees: 0, radius: 0 });
    points.push(PolarPoint { degrees: degrees as i32, radius: INNER_RADIUS });
    assert(points@ =~= seq![
        spec_center(),
        PolarPoint { degrees: degrees as i32, radius: INNER_RADIUS },
    ]);
    Shape::Path {
        points,
        closed: false,
        fill: Color::transparent(),
        stroke: Stroke { width: BOLD, color: Color::light_green() },
    }
}

/// The geometry that is built once and drawn on every tick.
pub struct PanApp {
    wedges: Vec<Vec<PolarPoint>>,
    decoration: Vec<Shape>,
}

/// What a `PanApp` stands for: the outlines of the wedges, in drawing order, and the
/// decoration.
pub struct Geometry {
    pub wedges: Seq<Seq<PolarPoint>>,
    pub decoration: Seq<ShapeView>,
}

/// The geometry of the display: the wedges of the seven positions, in drawing order,
/// and the fixed decoration.
pub open spec fn spec_geometry() -> Geometry {
    Geometry {
        wedges: Seq::new(SLOT_COUNT as nat, |i: int| slot_outline(spec_draw_order()[i])),
        decoration: spec_decoration(),
    }
}

impl View for PanApp {
    type V = Geometry;

    closed spec fn view(&self) -> Geometry {
        Geometry {
            wedges: Seq::new(self.wedges@.len(), |i: int| self.wedges@[i]@),
            decoration: shapes_view(self.decoration@),
        }
    }
}

impl PanApp {
    /// The geometry never differs from the one built at the start.
    #[verifier::type_invariant]
    spec fn well_formed(self) -> bool {
        self@ == spec_geometry()
    }

    /// Builds the seven wedges and the decoration.
    pub fn new() -> (app: PanApp)
        ensures
            app@ == spec_geometry(),
    {
        let order = draw_order();
        let mut wedges: Vec<Vec<PolarPoint>> = Vec::new();
        let mut i: usize = 0;
        while i < SLOT_COUNT
            invariant
                i <= SLOT_COUNT,
                order@ == spec_draw_order(),
                wedges@.len() == i,
                forall|k: int|
                    0 <= k < i ==> (#[trigger] wedges@[k])@ == slot_outline(spec_draw_order()[k]),
            decreases SLOT_COUNT - i,
        {
            wedges.push(build_wedge(order[i]));
            i = i + 1;
        }
        let decoration = build_decoration();
        assert(Seq::new(wedges@.len(), |k: int| wedges@[k]@) =~= spec_geometry().wedges);
        PanApp { wedges, decoration }
    }

    /// The outline of the wedge of `slot`, as built at the start.
    pub fn wedge(&self, slot: ChannelSlot) -> (points: &Vec<PolarPoint>)
        ensures
            points@ == slot_outline(slot),
            points@ == self@.wedges[slot.draw_position() as int],
    {
        proof {
            use_type_invariant(self);
            assert(self@.wedges.len() == SLOT_COUNT);
        }
        let position = slot.draw_position();
        assert(self@.wedges[position as int] == self.wedges@[position as int]@);
        &self.wedges[position]
    }

    /// The decoration, as built at the start.
    pub fn decoration(&self) -> (shapes: &Vec<Shape>)
        ensures
            shapes_view(shapes@) == spec_decoration(),
            shapes_view(shapes@) == self@.decoration,
    {
        proof {
            use_type_invariant(self);
        }
        &self.decoration
    }

    /// One tick: binds the eight peaks just read from the meter, each given as
    /// single-precision bits, to the wedges, and places the sweep hand for the time
    /// `now_ms`, in milliseconds since the epoch.
    pub fn update(&self, peaks: &[u32; 8], now_ms: u128) -> (frame: Frame)
        ensures
            frame@ == spec_frame(peaks@, now_ms as nat),
    {
        proof {
            use_type_invariant(self);
            assert(self@.wedges.len() == SLOT_COUNT);
            assert forall|k: int| 0 <= k < SLOT_COUNT implies (#[trigger] self.wedges@[k])@
                == slot_outline(spec_draw_order()[k]) by {
                assert(self@.wedges[k] == self.wedges@[k]@);
            }
        }
        let order = draw_order();
        let mut shapes: Vec<Shape> = Vec::new();
        let mut i: usize = 0;
        while i < SLOT_COUNT
            invariant
                i <= SLOT_COUNT,
                order@ == spec_draw_order(),
                self.wedges@.len() == SLOT_COUNT,
                forall|k: int|
                    0 <= k < SLOT_COUNT ==> (#[trigger] self.wedges@[k])@ == slot_outline(
                        spec_draw_order()[k],
                    ),
                shapes@.len() == i,
                forall|k: int|
                    0 <= k < i ==> (#[trigger] shapes@[k])@ == wedge_shape(
                        spec_draw_order()[k],
                        peaks@,
                    ),
            decreases SLOT_COUNT - i,
        {
            let slot = order[i];
            shapes.push(
                Shape::Path {
                    points: copy_points(&self.wedges[i]),
                    closed: true,
                    fill: fill_color(peaks[slot.channel_index()]),
                    stroke: Stroke { width: THIN, color: Color::black() },
                },
            );
            i = i + 1;
        }
        let mut j: usize = 0;
        while j < self.decoration.len()
            invariant
                j <= self.decoration@.len(),
                shapes_view(self.decoration@) == spec_decoration(),
                shapes@.len() == SLOT_COUNT + j,
                forall|k: int|
                    0 <= k < SLOT_COUNT ==> (#[trigger] shapes@[k])@ == wedge_shape(
                        spec_draw_order()[k],
                        peaks@,
                    ),
                forall|k: int|
                    0 <= k < j ==> (#[trigger] shapes@[SLOT_COUNT + k])@ == spec_decoration()[k],
            decreases self.decoration@.len() - j,
        {
            assert(shapes_view(self.decoration@)[j as int] == self.decoration@[j as int]@);
            shapes.push(self.decoration[j].duplicate());
            j = j + 1;
        }
        let ghost below = shapes@;
        shapes.push(build_sweep(sweep_angle(now_ms)));
        let frame = Frame { shapes, repaint_after_ms: REPAINT_AFTER_MS };
        proof {
            let expected = spec_frame(peaks@, now_ms as nat).shapes;
            assert(shapes_view(self.decoration@).len() == self.decoration@.len());
            assert(expected.len() == frame@.shapes.len());
            assert forall|k: int| 0 <= k < expected.len() implies frame@.shapes[k]
                == expected[k] by {
                if k < SLOT_COUNT {
                    assert(frame.shapes@[k] == below[k]);
                } else if k < SLOT_COUNT + self.decoration@.len() {
                    assert(frame.shapes@[k] == below[SLOT_COUNT + (k - SLOT_COUNT)]);
                }
            }
            assert(frame@.shapes =~= expected);
        }
        frame
    }
}

/// A frame holds fifteen shapes: seven wedges, five rings, two axes and the sweep
/// hand, in this order.
pub proof fn lemma_frame_layout(peaks: Seq<u32>, now_ms: nat)
    ensures
        spec_frame(peaks, now_ms).shapes.len() == 15,
        spec_frame(peaks, now_ms).repaint_after_ms == 33,
        forall|slot: ChannelSlot| #[trigger]
            spec_frame(peaks, now_ms).shapes[slot.draw_position() as int] == wedge_shape(
                slot,
                peaks,
            ),
        forall|ring: int|
            0 <= ring < 5 ==> #[trigger] spec_frame(peaks, now_ms).shapes[7 + ring] == ring_shape(
                ring as nat,
            ),
        spec_frame(peaks, now_ms).shapes[12] == axis_shape(180, 0),
        spec_frame(peaks, now_ms).shapes[13] == axis_shape(270, 90),
        spec_frame(peaks, now_ms).shapes[14] == sweep_shape(now_ms),
{
    assert forall|slot: ChannelSlot| #[trigger]
        spec_frame(peaks, now_ms).shapes[slot.draw_position() as int] == wedge_shape(
            slot,
            peaks,
        ) by {
        assert(spec_draw_order()[slot.draw_position() as int] == slot);
    }
}

/// Each wedge is filled in the red of its own channel and of no other: the wedge of
/// `slot` is as red as the colour mapping makes the peak of the channel that feeds
/// `slot`, with no green, no blue and full opacity.
pub proof fn lemma_wedge_follows_its_channel(slot: ChannelSlot, peaks: Seq<u32>, now_ms: nat)
    ensures
        spec_frame(peaks, now_ms).shapes[slot.draw_position() as int] matches ShapeView::Path {
            points,
            closed,
            fill,
            ..
        } && points == slot_outline(slot) && closed && fill == (Color {
            r: spec_red_intensity(peaks[slot.channel_index() as int]) as u8,
            g: 0,
            b: 0,
            a: 255,
        }),
{
    lemma_frame_layout(peaks, now_ms);
}

/// The channel that is not drawn has no influence on the frame, and neither has
/// anything a sample may hold beyond its eight channels.
pub proof fn lemma_unused_channel_is_ignored(first: Seq<u32>, second: Seq<u32>, now_ms: nat)
    requires
        forall|slot: ChannelSlot| #[trigger]
            first[slot.channel_index() as int] == second[slot.channel_index() as int],
    ensures
        spec_frame(first, now_ms) == spec_frame(second, now_ms),
{
    assert forall|i: int| 0 <= i < SLOT_COUNT implies wedge_shape(spec_draw_order()[i], first)
        == wedge_shape(spec_draw_order()[i], second) by {
        let slot = spec_draw_order()[i];
        assert(first[slot.channel_index() as int] == second[slot.channel_index() as int]);
    }
    assert(spec_frame(first, now_ms).shapes =~= spec_frame(second, now_ms).shapes);
}

/// Time enters a frame only through the sweep hand, so frames a full revolution of
/// the hand apart are equal.
pub proof fn lemma_frame_repeats_with_the_sweep(peaks: Seq<u32>, now_ms: nat)
    ensures
        spec_frame(peaks, now_ms + REVOLUTION_MS as nat) == spec_frame(peaks, now_ms),
{
    lemma_sweep_period(now_ms);
}

/// The outer arcs of the wedges leave no direction out: every whole degree of the
/// circle is a vertex on the outer arc of some wedge.
pub proof fn lemma_wedges_sample_every_direction(degree: int)
    requires
        0 <= degree < 360,
    ensures
        exists|slot: ChannelSlot, i: int|
            0 <= i < arc_span(slot.start_deg(), slot.end_deg()) && (#[trigger] slot_outline(
                slot,
            )[i]).degrees % 360 == degree && slot_outline(slot)[i].radius == OUTER_RADIUS,
{
    let slot = if degree < 31 {
        ChannelSlot::Right
    } else if degree < 91 {
        ChannelSlot::RearRight
    } else if degree < 151 {
        ChannelSlot::RearLeft
    } else if degree < 201 {
        ChannelSlot::Left
    } else if degree < 251 {
        ChannelSlot::FrontLeft
    } else if degree < 291 {
        ChannelSlot::Front
    } else if degree < 341 {
        ChannelSlot::FrontRight
    } else {
        ChannelSlot::Right
    };
    let turned = if degree < 31 {
        degree + 360
    } else {
        degree
    };
    let i = turned - slot.start_deg();
    assert(slot_outline(slot)[i].degrees == turned);
}

} // verus!
