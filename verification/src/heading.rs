//! Headings: yaw angles kept within one revolution, and the axis-aligned
//! direction a heading faces.

use crate::units::{FULL_TURN, STEP_LIMIT};
use vstd::prelude::*;

verus! {

/// The angle in `[0, FULL_TURN)` that differs from `angle` by whole
/// revolutions.
pub open spec fn normalized(angle: int) -> int {
    angle % (FULL_TURN as int)
}

/// Whether `heading` lies within one revolution.
pub open spec fn is_heading(heading: int) -> bool {
    0 <= heading < FULL_TURN
}

/// The x component of the forward direction at `heading`, rounded to the
/// nearest integer.
///
/// Facing forward is `(-sin, 0, -cos)` of the yaw. A component whose magnitude
/// is at least one half rounds away from zero, and the sine is at least one
/// half exactly from 30 to 150 degrees.
pub open spec fn forward_x(heading: int) -> int {
    if 30_000_000_000 <= heading <= 150_000_000_000 {
        -1
    } else if 210_000_000_000 <= heading <= 330_000_000_000 {
        1
    } else {
        0
    }
}

/// The z component of the forward direction at `heading`, rounded to the
/// nearest integer: the cosine is at least one half exactly within 60 degrees
/// of zero.
pub open spec fn forward_z(heading: int) -> int {
    if heading <= 60_000_000_000 || 300_000_000_000 <= heading {
        -1
    } else if 120_000_000_000 <= heading <= 240_000_000_000 {
        1
    } else {
        0
    }
}

/// Adds a signed angle to a heading and brings the sum back within one
/// revolution.
pub fn swing(heading: i128, by: i128) -> (turned: i128)
    requires
        is_heading(heading as int),
        -STEP_LIMIT <= by <= STEP_LIMIT,
    ensures
        turned == normalized(heading + by),
        is_heading(turned as int),
{
    let sum: i128 = heading + by;
    let rest: i128 = sum % FULL_TURN;
    if rest < 0 {
        rest + FULL_TURN
    } else {
        rest
    }
}

/// The rounded forward direction at `heading`, as its x and z components.
pub fn forward(heading: i128) -> (dir: (i8, i8))
    requires
        is_heading(heading as int),
    ensures
        dir.0 == forward_x(heading as int),
        dir.1 == forward_z(heading as int),
{
    let x: i8 = if 30_000_000_000 <= heading && heading <= 150_000_000_000 {
        -1
    } else if 210_000_000_000 <= heading && heading <= 330_000_000_000 {
        1
    } else {
        0
    };
    let z: i8 = if heading <= 60_000_000_000 || 300_000_000_000 <= heading {
        -1
    } else if 120_000_000_000 <= heading && heading <= 240_000_000_000 {
        1
    } else {
        0
    };
    (x, z)
}

} // verus!
