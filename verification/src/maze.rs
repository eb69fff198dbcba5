//! A maze session and its controllers, one call per frame each.

use crate::clock::{run_step_timer, STEP_PERIOD};
use crate::heading::{forward, swing};
use crate::model::{
    cue_for, entered, gated, moved, rounded_cells, sampled, step_cue, step_time, stepped,
    turn_loop, turned, SessionModel, StepCue, TurnLoop,
};
use crate::settings::{camera, Settings};
use crate::units::{
    turn_amount, turn_step, walk_amount, walk_step, CELL, DEGREE, FULL_TURN, QUARTER_TURN,
    STEP_LIMIT, STRIDE,
};
use vstd::prelude::*;

verus! {

/// Farthest coordinate from which a frame's step is sure to stay
/// representable.
pub const REACH: i128 = 0x4000_0000_0000_0000_0000_0000_0000_0000;

/// Where the player stands and which way the player faces.
#[derive(Clone, Copy, Debug, PartialEq, Eq)]
pub struct Pose {
    /// Position, in distance units.
    pub x: i128,
    pub y: i128,
    pub z: i128,
    /// Yaw, in angle units within one revolution.
    pub heading: i128,
}

/// Everything a maze session owns: the player's pose, the pending turn and
/// move, and the footstep bookkeeping.
#[derive(Clone, Copy, Debug, PartialEq, Eq)]
pub struct Session {
    pub player: Pose,
    /// Signed angle still to turn.
    pub degrees_to_turn: i128,
    /// Distance still to walk.
    pub distance_to_move: i128,
    /// Nanoseconds on the footstep timer.
    pub step_timer: u64,
    /// Footsteps sounded so far.
    pub steps_taken: u32,
}

impl View for Session {
    type V = SessionModel;

    open spec fn view(&self) -> SessionModel {
        SessionModel {
            x: self.player.x as int,
            y: self.player.y as int,
            z: self.player.z as int,
            heading: self.player.heading as int,
            degrees_to_turn: self.degrees_to_turn as int,
            distance_to_move: self.distance_to_move as int,
            step_timer: self.step_timer as int,
            steps_taken: self.steps_taken as int,
        }
    }
}

impl Session {
    /// A session the controllers accept: the model's invariant holds and the
    /// pending values are no larger than one frame's step can make them.
    pub open spec fn wf(&self) -> bool {
        &&& self@.inv()
        &&& -STEP_LIMIT <= self.degrees_to_turn <= STEP_LIMIT
        &&& -STEP_LIMIT <= self.distance_to_move
    }

    /// The player is close enough to the origin for one more step.
    pub open spec fn within_reach(&self) -> bool {
        &&& -REACH <= self.player.x <= REACH
        &&& -REACH <= self.player.z <= REACH
    }

    /// Enters the maze.
    pub fn build_maze() -> (session: Session)
        ensures
            session.wf(),
            session.within_reach(),
            session@ == entered(),
    {
        Session {
            player: Pose { x: CELL, y: CELL, z: 5 * CELL, heading: 0 },
            degrees_to_turn: 0,
            distance_to_move: 0,
            step_timer: 0,
            steps_taken: 0,
        }
    }

    /// Whether the controllers accept this session: see [`Session::wf`]. A
    /// session made by [`Session::build_maze`] and changed only by the
    /// controllers always is.
    pub fn is_well_formed(&self) -> (ok: bool)
        ensures
            ok == self.wf(),
    {
        0 <= self.player.heading && self.player.heading < FULL_TURN && (self.degrees_to_turn == 0
            || self.distance_to_move == 0) && self.distance_to_move <= STRIDE && self.step_timer
            < STEP_PERIOD && -STEP_LIMIT <= self.degrees_to_turn && self.degrees_to_turn
            <= STEP_LIMIT && -STEP_LIMIT <= self.distance_to_move
    }

    /// Whether the player is neither turning nor moving. Only then may the
    /// probe ray be cast.
    pub fn is_idle(&self) -> (idle: bool)
        ensures
            idle == self@.idle(),
    {
        self.degrees_to_turn == 0 && self.distance_to_move == 0
    }

    /// Whether [`Session::player_move`] may be called: see
    /// [`Session::within_reach`].
    pub fn has_reach(&self) -> (near: bool)
        ensures
            near == self.within_reach(),
    {
        -REACH <= self.player.x && self.player.x <= REACH && -REACH <= self.player.z
            && self.player.z <= REACH
    }

    /// Runs the turn controller, then the input sampler.
    ///
    /// `cursor` is the pointer's x position in the window, or `None` when the
    /// pointer is outside it; `window_width` is in the same unit.
    pub fn player_turning(
        &mut self,
        settings: &Settings,
        delta_nanos: u64,
        cursor: Option<i64>,
        window_width: i64,
    )
        requires
            old(self).wf(),
        ensures
            final(self).wf(),
            final(self)@ == sampled(
                turned(old(self)@, turn_step(settings.turn_speed, delta_nanos)),
                cursor,
                window_width,
            ),
    {
        if self.degrees_to_turn != 0 {
            let step: i128 = turn_amount(settings.turn_speed, delta_nanos);
            let by: i128 = if self.degrees_to_turn > 0 {
                step
            } else {
                -step
            };
            self.player.heading = swing(self.player.heading, by);
            let rest: i128 = self.degrees_to_turn - by;
            self.degrees_to_turn = if -DEGREE < rest && rest < DEGREE {
                0
            } else {
                rest
            };
        }
        if self.degrees_to_turn == 0 && self.distance_to_move == 0 {
            if let Some(x) = cursor {
                let at: i128 = 3 * (x as i128);
                let width: i128 = window_width as i128;
                if at < width {
                    self.degrees_to_turn = QUARTER_TURN;
                } else if at > 2 * width {
                    self.degrees_to_turn = -QUARTER_TURN;
                }
            }
        }
    }

    /// Runs the collision gate on the distances at which the probe ray hit
    /// something, in distance units.
    pub fn collision_check(&mut self, hits: &Vec<u64>)
        requires
            old(self).wf(),
        ensures
            final(self).wf(),
            final(self)@ == gated(old(self)@, hits@),
            !old(self)@.idle() ==> *final(self) == *old(self),
    {
        if self.degrees_to_turn == 0 && self.distance_to_move == 0 {
            let mut open: bool = false;
            let mut i: usize = 0;
            while i < hits.len()
                invariant
                    0 <= i <= hits.len(),
                    open == exists|j: int| 0 <= j < i && rounded_cells(#[trigger] hits[j] as int) != 1,
                decreases hits.len() - i,
            {
                if hit_approves(hits[i]) {
                    open = true;
                }
                i += 1;
            }
            if open {
                self.distance_to_move = STRIDE;
            }
        }
    }

    /// Runs the move controller.
    pub fn player_move(&mut self, settings: &Settings, delta_nanos: u64)
        requires
            old(self).wf(),
            old(self).within_reach(),
        ensures
            final(self).wf(),
            final(self)@ == moved(old(self)@, walk_step(settings.walk_speed, delta_nanos)),
    {
        if self.distance_to_move < 0 {
            self.distance_to_move = 0;
        }
        if self.distance_to_move > 0 {
            let step: i128 = walk_amount(settings.walk_speed, delta_nanos);
            let dir: (i8, i8) = forward(self.player.heading);
            self.player.x = self.player.x + along(dir.0, step);
            self.player.z = self.player.z + along(dir.1, step);
            self.distance_to_move = self.distance_to_move - step;
        }
    }

    /// Runs the footstep timer and returns the footstep sound to play, if one
    /// is due.
    pub fn step_sounds(&mut self, settings: &Settings, delta_nanos: u64) -> (cue: Option<StepCue>)
        requires
            old(self).wf(),
        ensures
            final(self).wf(),
            final(self)@ == stepped(old(self)@, step_time(settings.walk_speed, delta_nanos)),
            cue == step_cue(old(self)@, step_time(settings.walk_speed, delta_nanos)),
    {
        if self.distance_to_move != 0 {
            let ran: (u64, bool) = run_step_timer(self.step_timer, settings.walk_speed, delta_nanos);
            self.step_timer = ran.0;
            if ran.1 {
                self.steps_taken = self.steps_taken.wrapping_add(1);
                return Some(step_sound(self.steps_taken));
            }
        }
        None
    }

    /// What the looping turn sound should do this frame.
    pub fn turn_sound(&self) -> (action: TurnLoop)
        ensures
            action == turn_loop(self@),
    {
        if self.degrees_to_turn == 0 {
            TurnLoop::Pause
        } else {
            TurnLoop::Play
        }
    }

    /// Runs the second half of a frame, after [`Session::player_turning`]:
    /// the collision gate on `hits`, the move controller, and then the
    /// feedback, which reads the session as the controllers left it.
    pub fn finish_frame(&mut self, settings: &Settings, delta_nanos: u64, hits: &Vec<u64>) -> (feedback: Feedback)
        requires
            old(self).wf(),
            old(self).within_reach(),
        ensures
            final(self).wf(),
            final(self)@ == stepped(
                moved(gated(old(self)@, hits@), walk_step(settings.walk_speed, delta_nanos)),
                step_time(settings.walk_speed, delta_nanos),
            ),
            feedback.step == step_cue(
                moved(gated(old(self)@, hits@), walk_step(settings.walk_speed, delta_nanos)),
                step_time(settings.walk_speed, delta_nanos),
            ),
            feedback.turn == turn_loop(final(self)@),
            feedback.field_of_view == settings.field_of_view,
    {
        self.collision_check(hits);
        self.player_move(settings, delta_nanos);
        let step = self.step_sounds(settings, delta_nanos);
        Feedback { step, turn: self.turn_sound(), field_of_view: camera(settings) }
    }
}

/// What the presentation layer is asked to do at the end of a frame.
#[derive(Clone, Copy, Debug, PartialEq, Eq)]
pub struct Feedback {
    /// The footstep sound to play, if one is due.
    pub step: Option<StepCue>,
    /// What the looping turn sound should do.
    pub turn: TurnLoop,
    /// The camera's field of view, in thousandths of a degree.
    pub field_of_view: u32,
}

/// Whether a hit at `distance` lets the player move: every rounded distance
/// but one world unit does.
pub fn hit_approves(distance: u64) -> (open: bool)
    ensures
        open == (rounded_cells(distance as int) != 1),
{
    let half: i128 = CELL / 2;
    let d: i128 = distance as i128;
    !(half <= d && d < CELL + half)
}

/// `step` taken along an axis on which the forward direction is `dir`.
fn along(dir: i8, step: i128) -> (by: i128)
    requires
        -1 <= dir <= 1,
        0 <= step <= STEP_LIMIT,
    ensures
        by == dir * step,
        -step <= by <= step,
{
    if dir > 0 {
        assert(dir * step == step) by (nonlinear_arith)
            requires
                dir == 1,
        ;
        step
    } else if dir < 0 {
        assert(dir * step == -step) by (nonlinear_arith)
            requires
                dir == -1,
        ;
        -step
    } else {
        assert(dir * step == 0) by (nonlinear_arith)
            requires
                dir == 0,
        ;
        0
    }
}

/// The footstep sound for the step that brings the count to `steps_taken`:
/// even counts play the first sound, odd counts the second.
pub fn step_sound(steps_taken: u32) -> (cue: StepCue)
    ensures
        cue == cue_for(steps_taken as int),
{
    if steps_taken % 2 == 0 {
        StepCue::First
    } else {
        StepCue::Second
    }
}

} // verus!
