//! Fixed-point units shared by the whole crate.
//!
//! Angles are counted in billionths of a degree and distances in
//! trillionths of a world unit, so that the per-frame step formulas are exact
//! products of the configured speed and the frame time in nanoseconds.

use vstd::prelude::*;

verus! {

/// Angle units in one degree.
pub const DEGREE: i128 = 1_000_000_000;

/// Angle units in a committed turn: ninety degrees.
pub const QUARTER_TURN: i128 = 90_000_000_000;

/// Angle units in a full revolution.
pub const FULL_TURN: i128 = 360_000_000_000;

/// Distance units in one world unit.
pub const CELL: i128 = 1_000_000_000_000;

/// Distance units in a committed move: two world units.
pub const STRIDE: i128 = 2_000_000_000_000;

/// Largest magnitude a pending turn or a pending move can take: an upper
/// bound on one frame's step at the largest speed and the longest frame.
pub const STEP_LIMIT: i128 = 0x80_0000_0000_0000_0000_0000_0000;

/// Angle turned in one frame: the turn speed times the frame time times one
/// hundred, so that speed 1 turns one hundred degrees per second.
pub open spec fn turn_step(turn_speed: u32, delta_nanos: u64) -> int {
    turn_speed * delta_nanos * 100
}

/// Distance walked in one frame: the walk speed (in thousandths) times the
/// frame time times four, so that speed 1.0 walks four world units per second.
pub open spec fn walk_step(walk_speed: u32, delta_nanos: u64) -> int {
    walk_speed * delta_nanos * 4
}

/// Computes [`turn_step`].
pub fn turn_amount(turn_speed: u32, delta_nanos: u64) -> (step: i128)
    ensures
        step == turn_step(turn_speed, delta_nanos),
        0 <= step <= STEP_LIMIT,
{
    assert(turn_speed * delta_nanos * 100 <= 0x1_0000_0000 * 0x1_0000_0000_0000_0000 * 100
        && 0 <= turn_speed * delta_nanos) by (nonlinear_arith)
        requires
            0 <= turn_speed < 0x1_0000_0000,
            0 <= delta_nanos < 0x1_0000_0000_0000_0000,
    ;
    (turn_speed as i128) * (delta_nanos as i128) * 100
}

/// Computes [`walk_step`].
pub fn walk_amount(walk_speed: u32, delta_nanos: u64) -> (step: i128)
    ensures
        step == walk_step(walk_speed, delta_nanos),
        0 <= step <= STEP_LIMIT,
{
    assert(walk_speed * delta_nanos * 4 <= 0x1_0000_0000 * 0x1_0000_0000_0000_0000 * 4
        && 0 <= walk_speed * delta_nanos) by (nonlinear_arith)
        requires
            0 <= walk_speed < 0x1_0000_0000,
            0 <= delta_nanos < 0x1_0000_0000_0000_0000,
    ;
    (walk_speed as i128) * (delta_nanos as i128) * 4
}

/// Products of a frame count and a step that is not negative grow with the
/// count, and one more frame adds one more step.
pub proof fn lemma_steps_grow(i: int, j: int, step: int)
    requires
        0 <= i <= j,
        step >= 0,
    ensures
        0 <= i * step <= j * step,
        (i + 1) * step == i * step + step,
{
    assert(0 <= i * step <= j * step) by (nonlinear_arith)
        requires
            0 <= i <= j,
            step >= 0,
    ;
    assert((i + 1) * step == i * step + step) by (nonlinear_arith);
}

} // verus!
