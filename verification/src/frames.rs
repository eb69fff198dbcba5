//! Whole frames: the controllers in their fixed order, and what holds of a
//! session after any number of frames.

use crate::model::{approves, gated, moved, sampled, step_time, stepped, turned, SessionModel};
use crate::settings::Settings;
use crate::units::{turn_step, walk_step, STRIDE};
use vstd::prelude::*;

verus! {

/// What one frame is given: the settings as they stand, the frame time, the
/// pointer, and what the probe ray hit.
pub struct FrameInput {
    pub settings: Settings,
    /// Time since the last frame, in nanoseconds.
    pub delta_nanos: u64,
    /// The pointer's x position in the window, if it is inside.
    pub cursor: Option<i64>,
    /// The window's width, in the unit of `cursor`.
    pub window_width: i64,
    /// Distances at which the probe ray hit something. They only matter in a
    /// frame whose collision gate finds the player idle.
    pub hits: Seq<u64>,
}

/// The session after the first half of a frame: the turn controller, then
/// the input sampler.
pub open spec fn turn_phase(m: SessionModel, input: FrameInput) -> SessionModel {
    sampled(
        turned(m, turn_step(input.settings.turn_speed, input.delta_nanos)),
        input.cursor,
        input.window_width,
    )
}

/// The session after one frame: turn controller, input sampler, collision
/// gate, move controller, and last the footstep feedback, each seeing what
/// the one before it left.
pub open spec fn frame(m: SessionModel, input: FrameInput) -> SessionModel {
    stepped(
        moved(
            gated(turn_phase(m, input), input.hits),
            walk_step(input.settings.walk_speed, input.delta_nanos),
        ),
        step_time(input.settings.walk_speed, input.delta_nanos),
    )
}

/// The session after a run of frames, first to last.
pub open spec fn run(m: SessionModel, inputs: Seq<FrameInput>) -> SessionModel
    decreases inputs.len(),
{
    if inputs.len() == 0 {
        m
    } else {
        frame(run(m, inputs.drop_last()), inputs.last())
    }
}

/// Every controller keeps the session's invariant, whatever it is given, as
/// long as steps and times are not negative.
pub proof fn lemma_controllers_keep_invariant(
    m: SessionModel,
    step: int,
    cursor: Option<i64>,
    window_width: i64,
    hits: Seq<u64>,
)
    requires
        m.inv(),
        step >= 0,
    ensures
        turned(m, step).inv(),
        sampled(m, cursor, window_width).inv(),
        gated(m, hits).inv(),
        moved(m, step).inv(),
        stepped(m, step).inv(),
{
}

/// A frame keeps the session's invariant.
pub proof fn lemma_frame_keeps_invariant(m: SessionModel, input: FrameInput)
    requires
        m.inv(),
    ensures
        turn_phase(m, input).inv(),
        frame(m, input).inv(),
{
    let turn = turn_step(input.settings.turn_speed, input.delta_nanos);
    let walk = walk_step(input.settings.walk_speed, input.delta_nanos);
    let time = step_time(input.settings.walk_speed, input.delta_nanos);
    assert(turn >= 0 && walk >= 0 && input.settings.walk_speed * input.delta_nanos >= 0)
        by (nonlinear_arith)
        requires
            turn == input.settings.turn_speed * input.delta_nanos * 100,
            walk == input.settings.walk_speed * input.delta_nanos * 4,
            input.settings.turn_speed >= 0,
            input.settings.walk_speed >= 0,
            input.delta_nanos >= 0,
    ;
    assert(time >= 0);
    let m1 = turned(m, turn);
    lemma_controllers_keep_invariant(m, turn, input.cursor, input.window_width, input.hits);
    let m2 = sampled(m1, input.cursor, input.window_width);
    lemma_controllers_keep_invariant(m1, turn, input.cursor, input.window_width, input.hits);
    let m3 = gated(m2, input.hits);
    lemma_controllers_keep_invariant(m2, walk, input.cursor, input.window_width, input.hits);
    let m4 = moved(m3, walk);
    lemma_controllers_keep_invariant(m3, walk, input.cursor, input.window_width, input.hits);
    lemma_controllers_keep_invariant(m4, time, input.cursor, input.window_width, input.hits);
}

/// Turning and moving are never under way together: from a session that
/// satisfies the invariant, after every frame of every run, a pending turn
/// means no pending move and a pending move means no pending turn.
pub proof fn lemma_never_turning_and_moving(m: SessionModel, inputs: Seq<FrameInput>)
    requires
        m.inv(),
    ensures
        forall|frames: int|
            0 <= frames <= inputs.len() ==> {
                let now = #[trigger] run(m, inputs.take(frames));
                &&& now.inv()
                &&& now.degrees_to_turn != 0 ==> now.distance_to_move == 0
                &&& now.distance_to_move != 0 ==> now.degrees_to_turn == 0
            },
{
    assert forall|frames: int| 0 <= frames <= inputs.len() implies (#[trigger] run(
        m,
        inputs.take(frames),
    )).inv() by {
        lemma_run_keeps_invariant(m, inputs.take(frames));
    }
}

/// A run of frames keeps the session's invariant.
pub proof fn lemma_run_keeps_invariant(m: SessionModel, inputs: Seq<FrameInput>)
    requires
        m.inv(),
    ensures
        run(m, inputs).inv(),
    decreases inputs.len(),
{
    if inputs.len() > 0 {
        lemma_run_keeps_invariant(m, inputs.drop_last());
        lemma_frame_keeps_invariant(run(m, inputs.drop_last()), inputs.last());
    }
}

/// The collision gate commits a move only for a player it finds idle, and
/// then always the same one: two world units, with nothing else changed.
pub proof fn lemma_gate_only_when_idle(m: SessionModel, hits: Seq<u64>)
    ensures
        gated(m, hits) != m ==> m.idle() && approves(hits),
        gated(m, hits) != m ==> gated(m, hits) == (SessionModel {
            distance_to_move: STRIDE as int,
            ..m
        }),
        !m.idle() ==> gated(m, hits) == m,
{
}

/// Running the collision gate again on the same hits changes nothing more.
pub proof fn lemma_gate_is_idempotent(m: SessionModel, hits: Seq<u64>)
    ensures
        gated(gated(m, hits), hits) == gated(m, hits),
{
}

/// The input sampler commits a turn only for a player it finds idle.
pub proof fn lemma_sample_only_when_idle(m: SessionModel, cursor: Option<i64>, window_width: i64)
    ensures
        !m.idle() ==> sampled(m, cursor, window_width) == m,
        cursor is None ==> sampled(m, cursor, window_width) == m,
{
}

/// Within one frame a move is committed only if no turn is pending once the
/// turn controller and the input sampler have run, and a turn is committed
/// only if nothing was pending once the turn controller has run.
pub proof fn lemma_commit_from_idle(m: SessionModel, input: FrameInput)
    requires
        m.inv(),
    ensures
        ({
            let after_turn = turned(m, turn_step(input.settings.turn_speed, input.delta_nanos));
            let after_sample = turn_phase(m, input);
            let after_gate = gated(after_sample, input.hits);
            &&& after_sample != after_turn ==> after_turn.idle()
            &&& after_gate != after_sample ==> after_sample.idle()
            &&& frame(m, input).degrees_to_turn == after_sample.degrees_to_turn
        }),
{
}

} // verus!
