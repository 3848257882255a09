//! The rotating sweep hand: a whole-degree angle derived from wall-clock time.

use vstd::prelude::*;
use crate::layout::REPAINT_AFTER_MS;

verus! {

/// Milliseconds the sweep hand takes to advance by one degree.
pub const MILLIS_PER_DEGREE: u128 = 10;

/// Degrees in one revolution.
pub const FULL_TURN: u128 = 360;

/// Milliseconds the sweep hand takes for one revolution.
pub const REVOLUTION_MS: u128 = 3600;

/// Whole degrees the hand has turned since the epoch, revolutions included.
pub open spec fn degrees_turned(now_ms: nat) -> nat {
    now_ms / (MILLIS_PER_DEGREE as nat)
}

/// The sweep angle at `now_ms` milliseconds since the epoch: the degrees turned,
/// reduced into one revolution.
pub open spec fn spec_sweep_angle(now_ms: nat) -> nat {
    degrees_turned(now_ms) % (FULL_TURN as nat)
}

/// Angle of the sweep hand, in whole degrees, at `now_ms` milliseconds since the epoch.
pub fn sweep_angle(now_ms: u128) -> (angle: u32)
    ensures
        angle == spec_sweep_angle(now_ms as nat),
        angle < 360,
{
    let turned: u128 = now_ms / MILLIS_PER_DEGREE % FULL_TURN;
    turned as u32
}

/// The hand turns by exactly 360 degrees in 3600 milliseconds, so the angle repeats
/// with that period.
pub proof fn lemma_sweep_period(now_ms: nat)
    ensures
        degrees_turned(now_ms + REVOLUTION_MS as nat) == degrees_turned(now_ms) + FULL_TURN,
        spec_sweep_angle(now_ms + REVOLUTION_MS as nat) == spec_sweep_angle(now_ms),
{
}

/// Within one revolution the angle does not come back: 3600 milliseconds is the
/// shortest period.
pub proof fn lemma_sweep_no_shorter_period(now_ms: nat, elapsed_ms: nat)
    requires
        MILLIS_PER_DEGREE <= elapsed_ms <= REVOLUTION_MS - MILLIS_PER_DEGREE,
    ensures
        spec_sweep_angle(now_ms + elapsed_ms) != spec_sweep_angle(now_ms),
{
    let before = degrees_turned(now_ms);
    let after = degrees_turned(now_ms + elapsed_ms);
    assert(before + 1 <= after <= before + 359);
}

/// From one frame to the next, 33 milliseconds later, the hand advances by three
/// or four degrees.
pub proof fn lemma_sweep_step_per_tick(now_ms: nat)
    ensures
        degrees_turned(now_ms) + 3 <= degrees_turned(now_ms + REPAINT_AFTER_MS as nat)
            <= degrees_turned(now_ms) + 4,
{
}

/// Counted in frames 33 milliseconds apart, a revolution is not yet exceeded after
/// 109 frames and is complete after 110.
pub proof fn lemma_sweep_revolution_in_ticks(now_ms: nat)
    ensures
        degrees_turned(now_ms + 109 * REPAINT_AFTER_MS as nat) <= degrees_turned(now_ms)
            + FULL_TURN,
        degrees_turned(now_ms + 110 * REPAINT_AFTER_MS as nat) >= degrees_turned(now_ms)
            + FULL_TURN,
{
}

} // verus!
