//! The mathematical model of a maze session: its state over unbounded
//! integers, and what each controller does to it in one frame.

use crate::clock::STEP_PERIOD;
use crate::heading::{forward_x, forward_z, is_heading, normalized};
use crate::units::{CELL, DEGREE, QUARTER_TURN, STRIDE};
use vstd::prelude::*;

verus! {

/// Which of the two footstep sounds to play.
#[derive(Clone, Copy, Debug, PartialEq, Eq, Structural)]
pub enum StepCue {
    /// The first footstep sound, played on even steps.
    First,
    /// The second footstep sound, played on odd steps.
    Second,
}

/// What to do with the looping turn sound.
#[derive(Clone, Copy, Debug, PartialEq, Eq, Structural)]
pub enum TurnLoop {
    /// Keep it playing: a turn is under way.
    Play,
    /// Keep it paused: no turn is under way.
    Pause,
}

/// The state of a maze session, over unbounded integers.
pub struct SessionModel {
    /// Player position, in distance units.
    pub x: int,
    pub y: int,
    pub z: int,
    /// Player yaw, in angle units within one revolution.
    pub heading: int,
    /// Signed angle still to turn; zero when no turn is under way.
    pub degrees_to_turn: int,
    /// Distance still to walk; zero when no move is under way, and negative
    /// for the frame after a step overshot the committed distance.
    pub distance_to_move: int,
    /// Nanoseconds on the footstep timer.
    pub step_timer: int,
    /// Footsteps sounded so far, counted modulo 2^32.
    pub steps_taken: int,
}

impl SessionModel {
    /// Neither turning nor moving.
    pub open spec fn idle(self) -> bool {
        self.degrees_to_turn == 0 && self.distance_to_move == 0
    }

    /// Turning and moving are never under way together.
    pub open spec fn exclusive(self) -> bool {
        self.degrees_to_turn == 0 || self.distance_to_move == 0
    }

    /// What every controller keeps true of a session.
    pub open spec fn inv(self) -> bool {
        &&& is_heading(self.heading)
        &&& self.exclusive()
        &&& self.distance_to_move <= STRIDE
        &&& 0 <= self.step_timer < STEP_PERIOD
        &&& 0 <= self.steps_taken <= u32::MAX
    }
}

/// The session as it stands on entering the maze: the player at (1, 1, 5)
/// facing along negative z, idle, with the timer and the step count at zero.
pub open spec fn entered() -> SessionModel {
    SessionModel {
        x: CELL as int,
        y: CELL as int,
        z: 5 * CELL,
        heading: 0,
        degrees_to_turn: 0,
        distance_to_move: 0,
        step_timer: 0,
        steps_taken: 0,
    }
}

/// The sign of `value`: 1, -1 or 0.
pub open spec fn signum(value: int) -> int {
    if value > 0 {
        1
    } else if value < 0 {
        -1
    } else {
        0
    }
}

/// What is left of a pending turn once `step` was taken off it: less than one
/// degree either way counts as done.
pub open spec fn snapped(rest: int) -> int {
    if -DEGREE < rest < DEGREE {
        0
    } else {
        rest
    }
}

/// The turn controller: while a turn is pending, the yaw advances by `step`
/// in the turn's direction and the pending turn shrinks by as much.
pub open spec fn turned(m: SessionModel, step: int) -> SessionModel {
    if m.degrees_to_turn != 0 {
        let by = signum(m.degrees_to_turn) * step;
        SessionModel {
            heading: normalized(m.heading + by),
            degrees_to_turn: snapped(m.degrees_to_turn - by),
            ..m
        }
    } else {
        m
    }
}

/// The turn a pointer at `x` asks for in a window `width` wide: a quarter
/// turn left in the left third, a quarter turn right in the right third,
/// nothing in between.
pub open spec fn turn_intent(x: int, width: int) -> int {
    if 3 * x < width {
        QUARTER_TURN as int
    } else if 3 * x > 2 * width {
        -QUARTER_TURN
    } else {
        0
    }
}

/// The input sampler: an idle player commits the turn the pointer asks for.
/// A pointer outside the window asks for nothing.
pub open spec fn sampled(m: SessionModel, cursor: Option<i64>, width: i64) -> SessionModel {
    if m.idle() && cursor is Some && turn_intent(cursor->0 as int, width as int) != 0 {
        SessionModel { degrees_to_turn: turn_intent(cursor->0 as int, width as int), ..m }
    } else {
        m
    }
}

/// A hit distance rounded to whole world units, halves rounding up.
pub open spec fn rounded_cells(distance: int) -> int {
    (distance + CELL / 2) / (CELL as int)
}

/// Whether some hit lies at a rounded distance other than one world unit: a
/// wall right ahead is the only thing that blocks a move.
pub open spec fn approves(hits: Seq<u64>) -> bool {
    exists|i: int| 0 <= i < hits.len() && rounded_cells(#[trigger] hits[i] as int) != 1
}

/// The collision gate: an idle player whose probe ray reports an approving
/// hit commits a move of two world units.
pub open spec fn gated(m: SessionModel, hits: Seq<u64>) -> SessionModel {
    if m.idle() && approves(hits) {
        SessionModel { distance_to_move: STRIDE as int, ..m }
    } else {
        m
    }
}

/// The move controller: a negative pending move is first brought back to
/// zero; a positive one moves the player by `step` along the rounded forward
/// direction and shrinks by as much.
pub open spec fn moved(m: SessionModel, step: int) -> SessionModel {
    if m.distance_to_move > 0 {
        SessionModel {
            x: m.x + forward_x(m.heading) * step,
            z: m.z + forward_z(m.heading) * step,
            distance_to_move: m.distance_to_move - step,
            ..m
        }
    } else {
        SessionModel { distance_to_move: 0, ..m }
    }
}

/// Time put on the footstep timer in one frame: the frame time scaled by the
/// walk speed (in thousandths), in whole nanoseconds.
pub open spec fn step_time(walk_speed: u32, delta_nanos: u64) -> int {
    walk_speed * delta_nanos / 1000
}

/// Whether a footstep sounds this frame: only while a move is pending, and
/// when the timer completes a period.
pub open spec fn step_due(m: SessionModel, time: int) -> bool {
    m.distance_to_move != 0 && m.step_timer + time >= STEP_PERIOD
}

/// The footstep sound for the step that brings the count to `steps_taken`.
pub open spec fn cue_for(steps_taken: int) -> StepCue {
    if steps_taken % 2 == 0 {
        StepCue::First
    } else {
        StepCue::Second
    }
}

/// The footstep feedback: while a move is pending the timer runs, and each
/// time it completes a period the step count goes up by one.
pub open spec fn stepped(m: SessionModel, time: int) -> SessionModel {
    if m.distance_to_move != 0 {
        SessionModel {
            step_timer: (m.step_timer + time) % (STEP_PERIOD as int),
            steps_taken: if step_due(m, time) {
                (m.steps_taken + 1) % 0x1_0000_0000
            } else {
                m.steps_taken
            },
            ..m
        }
    } else {
        m
    }
}

/// The sound that [`stepped`] triggers, if any.
pub open spec fn step_cue(m: SessionModel, time: int) -> Option<StepCue> {
    if step_due(m, time) {
        Some(cue_for((m.steps_taken + 1) % 0x1_0000_0000))
    } else {
        None
    }
}

/// The turn sound plays exactly while a turn is pending.
pub open spec fn turn_loop(m: SessionModel) -> TurnLoop {
    if m.degrees_to_turn != 0 {
        TurnLoop::Play
    } else {
        TurnLoop::Pause
    }
}

} // verus!
