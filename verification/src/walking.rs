//! Laws of the move controller: a committed move always ends once the step
//! is positive, after how many frames, and how far the player has walked.

use crate::heading::{forward_x, forward_z};
use crate::model::{moved, SessionModel};
use crate::units::{lemma_steps_grow, STRIDE};
use vstd::arithmetic::div_mod::{
    lemma_fundamental_div_mod, lemma_mod_bound, lemma_mod_multiples_basic,
};
use vstd::prelude::*;

verus! {

/// The session after `frames` frames of the move controller, each walking
/// `step`.
pub open spec fn move_run(m: SessionModel, step: int, frames: nat) -> SessionModel
    decreases frames,
{
    if frames == 0 {
        m
    } else {
        moved(move_run(m, step, (frames - 1) as nat), step)
    }
}

/// The number of frames a committed move takes to walk its distance at
/// `step` per frame: the least `k` with `k * step` at least two world units.
pub open spec fn frames_to_move(step: int) -> int {
    (STRIDE - 1) / step + 1
}

/// The session `frames` frames into a committed move that started at `m`:
/// the player has walked `frames * step` along the direction faced at `m`.
pub open spec fn mid_move(m: SessionModel, step: int, frames: int) -> SessionModel {
    SessionModel {
        x: m.x + forward_x(m.heading) * (frames * step),
        z: m.z + forward_z(m.heading) * (frames * step),
        distance_to_move: STRIDE - frames * step,
        ..m
    }
}

/// `frames_to_move(step)` is the least number of steps that add up to two
/// world units or more.
pub proof fn lemma_frames_to_move(step: int)
    requires
        step > 0,
    ensures
        frames_to_move(step) >= 1,
        (frames_to_move(step) - 1) * step < STRIDE,
        STRIDE <= frames_to_move(step) * step < STRIDE + step,
{
    let a = STRIDE - 1;
    let q = a / step;
    lemma_fundamental_div_mod(a, step);
    lemma_mod_bound(a, step);
    assert(q >= 0) by (nonlinear_arith)
        requires
            a == step * q + a % step,
            0 <= a % step < step,
            a >= 0,
            step > 0,
    ;
    assert((q + 1) * step == step * q + step) by (nonlinear_arith);
    assert((q + 1 - 1) * step == step * q) by (nonlinear_arith);
}

/// Walking `frames` steps and one more is walking `frames + 1` steps, along
/// either axis.
proof fn lemma_one_more_step(dir: int, step: int, frames: int)
    ensures
        (frames + 1) * step == frames * step + step,
        dir * ((frames + 1) * step) == dir * (frames * step) + dir * step,
{
    assert((frames + 1) * step == frames * step + step) by (nonlinear_arith);
    assert(dir * (frames * step + step) == dir * (frames * step) + dir * step)
        by (nonlinear_arith);
}

/// As long as every earlier frame left some distance to walk, `frames`
/// frames of the move controller walk `frames * step` along the direction
/// faced at the start and take as much off the pending move.
pub proof fn lemma_move_under_way(m: SessionModel, step: int, frames: nat)
    requires
        m.distance_to_move == STRIDE,
        step >= 0,
        frames == 0 || (frames - 1) * step < STRIDE,
    ensures
        move_run(m, step, frames) == mid_move(m, step, frames as int),
    decreases frames,
{
    if frames == 0 {
        assert(0 * step == 0) by (nonlinear_arith);
        assert(forward_x(m.heading) * 0 == 0) by (nonlinear_arith);
        assert(forward_z(m.heading) * 0 == 0) by (nonlinear_arith);
        assert(mid_move(m, step, 0) == m);
    } else {
        let before = (frames - 1) as nat;
        if before > 0 {
            lemma_steps_grow(before - 1, before as int, step);
        }
        lemma_move_under_way(m, step, before);
        lemma_one_more_step(forward_x(m.heading), step, before as int);
        lemma_one_more_step(forward_z(m.heading), step, before as int);
    }
}

/// A committed move completes whenever the step is positive: for
/// `frames_to_move(step)` frames the player walks `step` along the direction
/// faced at the start, with distance left to walk before each of them; the
/// distance walked is at least two world units and overshoots them by less
/// than one step; the frame after that leaves the pending move at exactly
/// zero and the player where the walk ended.
pub proof fn lemma_move_completes(m: SessionModel, step: int)
    requires
        m.distance_to_move == STRIDE,
        step > 0,
    ensures
        ({
            let frames = frames_to_move(step);
            let walked = frames * step;
            let end = move_run(m, step, frames as nat);
            &&& frames >= 1
            &&& STRIDE <= walked < STRIDE + step
            &&& end == mid_move(m, step, frames)
            &&& end.x == m.x + forward_x(m.heading) * walked
            &&& end.z == m.z + forward_z(m.heading) * walked
            &&& end.distance_to_move <= 0
            &&& move_run(m, step, (frames + 1) as nat) == (SessionModel {
                distance_to_move: 0,
                ..end
            })
            &&& forall|earlier: nat|
                earlier < frames ==> (#[trigger] move_run(m, step, earlier)).distance_to_move > 0
        }),
{
    let frames = frames_to_move(step);
    lemma_frames_to_move(step);
    lemma_move_under_way(m, step, frames as nat);
    assert(move_run(m, step, (frames + 1) as nat) == moved(
        move_run(m, step, frames as nat),
        step,
    ));
    assert forall|earlier: nat| earlier < frames implies (#[trigger] move_run(
        m,
        step,
        earlier,
    )).distance_to_move > 0 by {
        lemma_steps_grow(earlier as int, frames - 1, step);
        if earlier > 0 {
            lemma_steps_grow(earlier - 1, earlier as int, step);
        }
        lemma_move_under_way(m, step, earlier);
    }
}

/// A committed move walks exactly two world units if and only if the step
/// divides them; any other positive step overshoots.
pub proof fn lemma_move_is_exact(step: int)
    requires
        step > 0,
    ensures
        frames_to_move(step) * step == STRIDE <==> (STRIDE as int) % step == 0,
{
    let frames = frames_to_move(step);
    lemma_frames_to_move(step);
    if frames * step == STRIDE {
        lemma_mod_multiples_basic(frames, step);
    }
    if (STRIDE as int) % step == 0 {
        let q = (STRIDE as int) / step;
        lemma_fundamental_div_mod(STRIDE as int, step);
        assert(frames == q) by (nonlinear_arith)
            requires
                STRIDE == step * q,
                STRIDE <= frames * step < STRIDE + step,
                step > 0,
        ;
        assert(frames * step == step * q) by (nonlinear_arith)
            requires
                frames == q,
        ;
    }
}

/// Once the pending move is zero the move controller leaves the session
/// alone, for however many frames.
pub proof fn lemma_move_stays_done(m: SessionModel, step: int, frames: nat)
    requires
        m.distance_to_move == 0,
    ensures
        move_run(m, step, frames) == m,
    decreases frames,
{
    if frames > 0 {
        lemma_move_stays_done(m, step, (frames - 1) as nat);
    }
}

/// At step zero a committed move never ends: the session stays as it is.
pub proof fn lemma_move_stalls(m: SessionModel, frames: nat)
    requires
        m.distance_to_move == STRIDE,
    ensures
        move_run(m, 0, frames) == m,
    decreases frames,
{
    if frames > 0 {
        lemma_move_stalls(m, (frames - 1) as nat);
        assert(forward_x(m.heading) * 0 == 0) by (nonlinear_arith);
        assert(forward_z(m.heading) * 0 == 0) by (nonlinear_arith);
    }
}

} // verus!
