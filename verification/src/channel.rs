//! The seven visualised speaker positions of a 7.1 layout: which channel of the
//! meter feeds each, and which angular sector of the display shows it.

use vstd::prelude::*;

verus! {

/// Number of channels the meter must report.
pub const CHANNEL_COUNT: usize = 8;

/// Number of speaker positions that are drawn.
pub const SLOT_COUNT: usize = 7;

/// The channel that is read and never drawn.
pub const UNUSED_CHANNEL: usize = 3;

/// A visualised speaker position.
#[derive(Clone, Copy, Debug, PartialEq, Eq, Structural)]
pub enum ChannelSlot {
    FrontLeft,
    FrontRight,
    Front,
    RearLeft,
    RearRight,
    Left,
    Right,
}

impl ChannelSlot {
    /// Index of the meter channel that feeds this position.
    pub open spec fn spec_channel_index(self) -> usize {
        match self {
            ChannelSlot::FrontLeft => 0,
            ChannelSlot::FrontRight => 1,
            ChannelSlot::Front => 2,
            ChannelSlot::RearLeft => 4,
            ChannelSlot::RearRight => 5,
            ChannelSlot::Left => 6,
            ChannelSlot::Right => 7,
        }
    }

    /// Index of the meter channel that feeds this position.
    #[verifier::when_used_as_spec(spec_channel_index)]
    pub fn channel_index(self) -> (index: usize)
        ensures
            index == self.spec_channel_index(),
            index < CHANNEL_COUNT,
            index != UNUSED_CHANNEL,
    {
        match self {
            ChannelSlot::FrontLeft => 0,
            ChannelSlot::FrontRight => 1,
            ChannelSlot::Front => 2,
            ChannelSlot::RearLeft => 4,
            ChannelSlot::RearRight => 5,
            ChannelSlot::Left => 6,
            ChannelSlot::Right => 7,
        }
    }

    /// The position fed by the meter channel `index`, if that channel is drawn.
    pub fn from_channel_index(index: usize) -> (slot: Option<ChannelSlot>)
        ensures
            slot is Some <==> index < CHANNEL_COUNT && index != UNUSED_CHANNEL,
            slot matches Some(found) ==> found.channel_index() == index,
    {
        match index {
            0 => Some(ChannelSlot::FrontLeft),
            1 => Some(ChannelSlot::FrontRight),
            2 => Some(ChannelSlot::Front),
            4 => Some(ChannelSlot::RearLeft),
            5 => Some(ChannelSlot::RearRight),
            6 => Some(ChannelSlot::Left),
            7 => Some(ChannelSlot::Right),
            _ => None,
        }
    }

    /// First degree of the sector, with 0 pointing right and angles growing clockwise
    /// on screen.
    pub open spec fn spec_start_deg(self) -> i32 {
        match self {
            ChannelSlot::Front => 250,
            ChannelSlot::FrontRight => 290,
            ChannelSlot::Right => 340,
            ChannelSlot::RearRight => 30,
            ChannelSlot::RearLeft => 90,
            ChannelSlot::Left => 150,
            ChannelSlot::FrontLeft => 200,
        }
    }

    /// First degree of the sector.
    #[verifier::when_used_as_spec(spec_start_deg)]
    pub fn start_deg(self) -> (degrees: i32)
        ensures
            degrees == self.spec_start_deg(),
            0 <= degrees < 360,
    {
        match self {
            ChannelSlot::Front => 250,
            ChannelSlot::FrontRight => 290,
            ChannelSlot::Right => 340,
            ChannelSlot::RearRight => 30,
            ChannelSlot::RearLeft => 90,
            ChannelSlot::Left => 150,
            ChannelSlot::FrontLeft => 200,
        }
    }

    /// The degree after the last one of the sector. It may exceed 360: the sector of
    /// `Right` runs through the zero direction.
    pub open spec fn spec_end_deg(self) -> i32 {
        match self {
            ChannelSlot::Front => 291,
            ChannelSlot::FrontRight => 341,
            ChannelSlot::Right => 391,
            ChannelSlot::RearRight => 91,
            ChannelSlot::RearLeft => 151,
            ChannelSlot::Left => 201,
            ChannelSlot::FrontLeft => 251,
        }
    }

    /// The degree after the last one of the sector.
    #[verifier::when_used_as_spec(spec_end_deg)]
    pub fn end_deg(self) -> (degrees: i32)
        ensures
            degrees == self.spec_end_deg(),
            self.start_deg() < degrees < self.start_deg() + 360,
    {
        match self {
            ChannelSlot::Front => 291,
            ChannelSlot::FrontRight => 341,
            ChannelSlot::Right => 391,
            ChannelSlot::RearRight => 91,
            ChannelSlot::RearLeft => 151,
            ChannelSlot::Left => 201,
            ChannelSlot::FrontLeft => 251,
        }
    }

    /// The position whose sector follows this one clockwise.
    pub open spec fn spec_clockwise_neighbor(self) -> ChannelSlot {
        match self {
            ChannelSlot::Front => ChannelSlot::FrontRight,
            ChannelSlot::FrontRight => ChannelSlot::Right,
            ChannelSlot::Right => ChannelSlot::RearRight,
            ChannelSlot::RearRight => ChannelSlot::RearLeft,
            ChannelSlot::RearLeft => ChannelSlot::Left,
            ChannelSlot::Left => ChannelSlot::FrontLeft,
            ChannelSlot::FrontLeft => ChannelSlot::Front,
        }
    }

    /// The position whose sector follows this one clockwise.
    #[verifier::when_used_as_spec(spec_clockwise_neighbor)]
    pub fn clockwise_neighbor(self) -> (next: ChannelSlot)
        ensures
            next == self.spec_clockwise_neighbor(),
    {
        match self {
            ChannelSlot::Front => ChannelSlot::FrontRight,
            ChannelSlot::FrontRight => ChannelSlot::Right,
            ChannelSlot::Right => ChannelSlot::RearRight,
            ChannelSlot::RearRight => ChannelSlot::RearLeft,
            ChannelSlot::RearLeft => ChannelSlot::Left,
            ChannelSlot::Left => ChannelSlot::FrontLeft,
            ChannelSlot::FrontLeft => ChannelSlot::Front,
        }
    }

    /// Place of this position in the drawing order.
    pub open spec fn spec_draw_position(self) -> usize {
        match self {
            ChannelSlot::Front => 0,
            ChannelSlot::FrontRight => 1,
            ChannelSlot::Right => 2,
            ChannelSlot::RearRight => 3,
            ChannelSlot::RearLeft => 4,
            ChannelSlot::Left => 5,
            ChannelSlot::FrontLeft => 6,
        }
    }

    /// Place of this position in the drawing order.
    #[verifier::when_used_as_spec(spec_draw_position)]
    pub fn draw_position(self) -> (position: usize)
        ensures
            position == self.spec_draw_position(),
            position < SLOT_COUNT,
            spec_draw_order()[position as int] == self,
    {
        match self {
            ChannelSlot::Front => 0,
            ChannelSlot::FrontRight => 1,
            ChannelSlot::Right => 2,
            ChannelSlot::RearRight => 3,
            ChannelSlot::RearLeft => 4,
            ChannelSlot::Left => 5,
            ChannelSlot::FrontLeft => 6,
        }
    }

    /// Whether the sector holds the direction `degree`, taken modulo 360.
    pub open spec fn covers(self, degree: int) -> bool {
        let reduced = degree % 360;
        ||| self.start_deg() <= reduced < self.end_deg()
        ||| self.start_deg() <= reduced + 360 < self.end_deg()
    }

    /// Whether the sector holds the direction `degree`, taken modulo 360.
    pub fn holds(self, degree: i32) -> (held: bool)
        ensures
            held == self.covers(degree as int),
    {
        let remainder: i32 = degree % 360;
        let reduced: i32 = if remainder < 0 {
            remainder + 360
        } else {
            remainder
        };
        let start: i32 = self.start_deg();
        let end: i32 = self.end_deg();
        (start <= reduced && reduced < end) || (start <= reduced + 360 && reduced + 360 < end)
    }
}

/// The positions in the order in which their wedges are drawn: clockwise, starting
/// with `Front`.
pub open spec fn spec_draw_order() -> Seq<ChannelSlot> {
    seq![
        ChannelSlot::Front,
        ChannelSlot::FrontRight,
        ChannelSlot::Right,
        ChannelSlot::RearRight,
        ChannelSlot::RearLeft,
        ChannelSlot::Left,
        ChannelSlot::FrontLeft,
    ]
}

/// The positions in the order in which their wedges are drawn.
pub fn draw_order() -> (order: [ChannelSlot; 7])
    ensures
        order@ == spec_draw_order(),
{
    let order = [
        ChannelSlot::Front,
        ChannelSlot::FrontRight,
        ChannelSlot::Right,
        ChannelSlot::RearRight,
        ChannelSlot::RearLeft,
        ChannelSlot::Left,
        ChannelSlot::FrontLeft,
    ];
    assert(order@ =~= spec_draw_order());
    order
}

/// 1 if the sector of `slot` holds `degree`, else 0.
pub open spec fn covered_by(slot: ChannelSlot, degree: int) -> nat {
    if slot.covers(degree) {
        1
    } else {
        0
    }
}

/// Number of sectors that hold the direction `degree`.
pub open spec fn coverage(degree: int) -> nat {
    covered_by(ChannelSlot::Front, degree) + covered_by(ChannelSlot::FrontRight, degree)
        + covered_by(ChannelSlot::Right, degree) + covered_by(ChannelSlot::RearRight, degree)
        + covered_by(ChannelSlot::RearLeft, degree) + covered_by(ChannelSlot::Left, degree)
        + covered_by(ChannelSlot::FrontLeft, degree)
}

/// Whether `degree`, taken modulo 360, is the first degree of some sector.
pub open spec fn is_shared_boundary(degree: int) -> bool {
    exists|slot: ChannelSlot| degree % 360 == #[trigger] slot.start_deg() % 360
}

/// Each position is fed by a channel of its own.
pub proof fn lemma_channels_distinct(a: ChannelSlot, b: ChannelSlot)
    ensures
        a.channel_index() == b.channel_index() <==> a == b,
{
}

/// The drawing order walks once round the display: each entry is followed by its
/// clockwise neighbour, and the last by the first.
pub proof fn lemma_draw_order_is_clockwise(position: int)
    requires
        0 <= position < SLOT_COUNT,
    ensures
        spec_draw_order()[(position + 1) % 7] == spec_draw_order()[position].clockwise_neighbor(),
{
}

/// Every position appears in the drawing order exactly once.
pub proof fn lemma_draw_order_complete(slot: ChannelSlot)
    ensures
        exists|position: int|
            0 <= position < SLOT_COUNT && #[trigger] spec_draw_order()[position] == slot,
        forall|first: int, second: int|
            0 <= first < SLOT_COUNT && 0 <= second < SLOT_COUNT && spec_draw_order()[first]
                == spec_draw_order()[second] ==> first == second,
{
    let position: int = match slot {
        ChannelSlot::Front => 0,
        ChannelSlot::FrontRight => 1,
        ChannelSlot::Right => 2,
        ChannelSlot::RearRight => 3,
        ChannelSlot::RearLeft => 4,
        ChannelSlot::Left => 5,
        ChannelSlot::FrontLeft => 6,
    };
    assert(spec_draw_order()[position] == slot);
}

/// A sector and its clockwise neighbour share exactly one degree: the last degree of
/// the one is the first degree of the other.
pub proof fn lemma_neighbors_share_one_degree(slot: ChannelSlot)
    ensures
        (slot.end_deg() - 1) % 360 == slot.clockwise_neighbor().start_deg() % 360,
        forall|degree: int|
            slot.covers(degree) && slot.clockwise_neighbor().covers(degree) <==> degree % 360
                == slot.clockwise_neighbor().start_deg() % 360,
{
}

/// The sectors cover the whole circle: every direction lies in at least one
/// sector and in at most two, and in two exactly where two neighbours meet.
pub proof fn lemma_sectors_tile_circle(degree: int)
    ensures
        1 <= coverage(degree) <= 2,
        coverage(degree) == 2 <==> is_shared_boundary(degree),
{
    let reduced = degree % 360;
    if coverage(degree) == 2 {
        let slot = if reduced == 250 {
            ChannelSlot::Front
        } else if reduced == 290 {
            ChannelSlot::FrontRight
        } else if reduced == 340 {
            ChannelSlot::Right
        } else if reduced == 30 {
            ChannelSlot::RearRight
        } else if reduced == 90 {
            ChannelSlot::RearLeft
        } else if reduced == 150 {
            ChannelSlot::Left
        } else {
            ChannelSlot::FrontLeft
        };
        assert(reduced == slot.start_deg() % 360);
    }
}

/// Together the sectors span 360 degrees and the seven degrees shared by neighbours.
pub proof fn lemma_spans_add_up()
    ensures
        (ChannelSlot::Front.end_deg() - ChannelSlot::Front.start_deg()) + (
        ChannelSlot::FrontRight.end_deg() - ChannelSlot::FrontRight.start_deg()) + (
        ChannelSlot::Right.end_deg() - ChannelSlot::Right.start_deg()) + (
        ChannelSlot::RearRight.end_deg() - ChannelSlot::RearRight.start_deg()) + (
        ChannelSlot::RearLeft.end_deg() - ChannelSlot::RearLeft.start_deg()) + (
        ChannelSlot::Left.end_deg() - ChannelSlot::Left.start_deg()) + (
        ChannelSlot::FrontLeft.end_deg() - ChannelSlot::FrontLeft.start_deg()) == 360
            + SLOT_COUNT,
{
}

} // verus!
