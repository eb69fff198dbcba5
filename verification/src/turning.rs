//! Laws of the turn controller: when a committed quarter turn completes, in
//! how many frames, and where the heading ends up.

use crate::heading::normalized;
use crate::model::{turned, SessionModel};
use crate::units::{lemma_steps_grow, DEGREE, FULL_TURN, QUARTER_TURN};
use vstd::arithmetic::div_mod::{lemma_fundamental_div_mod, lemma_mod_bound};
use vstd::prelude::*;

verus! {

/// The session after `frames` frames of the turn controller, each turning by
/// `step`.
pub open spec fn turn_run(m: SessionModel, step: int, frames: nat) -> SessionModel
    decreases frames,
{
    if frames == 0 {
        m
    } else {
        turned(turn_run(m, step, (frames - 1) as nat), step)
    }
}

/// The number of frames after which a quarter turn at `step` per frame has
/// less than one degree left, or has overshot: the least `k` with
/// `k * step` above 89 degrees.
pub open spec fn frames_to_turn(step: int) -> int {
    (QUARTER_TURN - DEGREE) / step + 1
}

/// Whether a quarter turn at `step` per frame ends: the frame that brings the
/// turned angle above 89 degrees must leave it below 91.
pub open spec fn turn_lands(step: int) -> bool {
    step > 0 && frames_to_turn(step) * step < QUARTER_TURN + DEGREE
}

/// A committed quarter turn to the left (`side` 1) or to the right
/// (`side` -1).
pub open spec fn quarter_turn_pending(m: SessionModel, side: int) -> bool {
    &&& m.inv()
    &&& side == 1 || side == -1
    &&& m.degrees_to_turn == side * QUARTER_TURN
}

/// The session `frames` frames into a turn that has not come within a degree
/// of its end: the turned angle is `frames * step`.
pub open spec fn mid_turn(m: SessionModel, side: int, step: int, frames: int) -> SessionModel {
    SessionModel {
        heading: normalized(m.heading + side * (frames * step)),
        degrees_to_turn: side * (QUARTER_TURN - frames * step),
        ..m
    }
}

/// `frames_to_turn(step)` is the least number of steps that add up to more
/// than 89 degrees.
pub proof fn lemma_frames_to_turn(step: int)
    requires
        step > 0,
    ensures
        frames_to_turn(step) >= 1,
        (frames_to_turn(step) - 1) * step <= QUARTER_TURN - DEGREE,
        QUARTER_TURN - DEGREE < frames_to_turn(step) * step,
{
    let a = QUARTER_TURN - DEGREE;
    let q = a / step;
    lemma_fundamental_div_mod(a, step);
    lemma_mod_bound(a, step);
    assert(q >= 0) by (nonlinear_arith)
        requires
            a == step * q + a % step,
            0 <= a % step < step,
            a >= 0,
            step > 0,
    ;
    assert((q + 1) * step == step * q + step) by (nonlinear_arith);
    assert((q + 1 - 1) * step == step * q) by (nonlinear_arith);
}

/// One frame of the turn controller, seen from `frames` frames into a turn,
/// leads `frames + 1` frames into it as long as more than a degree is left
/// either way.
proof fn lemma_turn_frame(m: SessionModel, side: int, step: int, frames: int)
    requires
        quarter_turn_pending(m, side),
        step >= 0,
        frames >= 0,
        frames * step < QUARTER_TURN,
    ensures
        turned(mid_turn(m, side, step, frames), step).heading == mid_turn(
            m,
            side,
            step,
            frames + 1,
        ).heading,
        QUARTER_TURN - (frames + 1) * step >= DEGREE || QUARTER_TURN - (frames + 1) * step
            <= -DEGREE ==> turned(mid_turn(m, side, step, frames), step) == mid_turn(
            m,
            side,
            step,
            frames + 1,
        ),
        -DEGREE < QUARTER_TURN - (frames + 1) * step < DEGREE ==> turned(
            mid_turn(m, side, step, frames),
            step,
        ) == (SessionModel { degrees_to_turn: 0, ..mid_turn(m, side, step, frames + 1) }),
{
    lemma_steps_grow(frames, frames, step);
    let t = frames * step;
    let t1 = (frames + 1) * step;
    assert(t1 == t + step);
    lemma_side(side, t);
    lemma_side(side, t1);
    lemma_side(side, QUARTER_TURN - t);
    lemma_side(side, QUARTER_TURN - t1);
    if side == 1 {
        lemma_swing_twice(m.heading + t, step);
    } else {
        lemma_swing_twice(m.heading - t, -step);
    }
}

/// Bringing an angle within one revolution before adding to it changes
/// nothing once the sum is brought within one revolution.
pub proof fn lemma_swing_twice(angle: int, by: int)
    ensures
        normalized(normalized(angle) + by) == normalized(angle + by),
{
    let full = FULL_TURN as int;
    lemma_fundamental_div_mod(angle, full);
    let q = angle / full;
    let r = angle % full;
    assert(angle + by == full * q + (r + by));
    vstd::arithmetic::div_mod::lemma_mod_multiples_vanish(q, r + by, full);
    assert(full * q == q * full) by (nonlinear_arith);
}

/// While more than a degree is left, `frames` frames of the turn controller
/// turn the heading by `frames * step` and take as much off the pending turn.
pub proof fn lemma_turn_under_way(m: SessionModel, side: int, step: int, frames: nat)
    requires
        quarter_turn_pending(m, side),
        step >= 0,
        frames * step <= QUARTER_TURN - DEGREE,
    ensures
        turn_run(m, step, frames) == mid_turn(m, side, step, frames as int),
        turn_run(m, step, frames).degrees_to_turn != 0,
    decreases frames,
{
    if frames == 0 {
        assert(0 * step == 0) by (nonlinear_arith);
        assert(side * 0 == 0) by (nonlinear_arith);
        assert(side * (QUARTER_TURN - 0) == side * QUARTER_TURN);
        assert(normalized(m.heading) == m.heading);
        assert(mid_turn(m, side, step, 0) == m);
    } else {
        let before = (frames - 1) as nat;
        lemma_steps_grow(before as int, frames as int, step);
        lemma_turn_under_way(m, side, step, before);
        lemma_turn_frame(m, side, step, before as int);
    }
    lemma_side(side, QUARTER_TURN - frames * step);
}

/// A committed quarter turn completes: at a constant positive step that does
/// not jump over the last degree, the pending turn is zero after exactly
/// `frames_to_turn(step)` frames and not before; by then the heading has
/// turned by that many steps, which is within one degree of ninety; and
/// nothing else in the session has changed.
pub proof fn lemma_turn_completes(m: SessionModel, side: int, step: int)
    requires
        quarter_turn_pending(m, side),
        turn_lands(step),
    ensures
        ({
            let frames = frames_to_turn(step);
            let turned_by = frames * step;
            &&& frames >= 1
            &&& QUARTER_TURN - DEGREE < turned_by < QUARTER_TURN + DEGREE
            &&& turn_run(m, step, frames as nat) == (SessionModel {
                heading: normalized(m.heading + side * turned_by),
                degrees_to_turn: 0,
                ..m
            })
            &&& forall|earlier: nat|
                earlier < frames ==> (#[trigger] turn_run(m, step, earlier)).degrees_to_turn != 0
        }),
{
    let frames = frames_to_turn(step);
    lemma_frames_to_turn(step);
    let before = (frames - 1) as nat;
    lemma_steps_grow(before as int, frames, step);
    lemma_turn_under_way(m, side, step, before);
    lemma_turn_frame(m, side, step, before as int);
    assert(turn_run(m, step, frames as nat) == turned(turn_run(m, step, before), step));
    assert forall|earlier: nat| earlier < frames implies (#[trigger] turn_run(
        m,
        step,
        earlier,
    )).degrees_to_turn != 0 by {
        lemma_steps_grow(earlier as int, before as int, step);
        lemma_turn_under_way(m, side, step, earlier);
    }
}

/// Once the pending turn is zero the turn controller leaves the session
/// alone, for however many frames.
pub proof fn lemma_turn_stays_done(m: SessionModel, step: int, frames: nat)
    requires
        m.degrees_to_turn == 0,
    ensures
        turn_run(m, step, frames) == m,
    decreases frames,
{
    if frames > 0 {
        lemma_turn_stays_done(m, step, (frames - 1) as nat);
    }
}

/// A committed quarter turn never completes when the step is zero, or when
/// the frame that brings the turned angle above 89 degrees brings it to 91 or
/// more: the pending turn then swings between two values on either side of
/// zero, each at least a degree away from it.
pub proof fn lemma_turn_never_completes(m: SessionModel, side: int, step: int, frames: nat)
    requires
        quarter_turn_pending(m, side),
        step >= 0,
        !turn_lands(step),
    ensures
        turn_run(m, step, frames).degrees_to_turn != 0,
        step > 0 ==> exists|done: int|
            0 <= done <= frames_to_turn(step) && #[trigger] mid_turn(m, side, step, done)
                == turn_run(m, step, frames),
        step == 0 ==> turn_run(m, step, frames) == m,
    decreases frames,
{
    if step == 0 {
        assert(frames * step == 0) by (nonlinear_arith)
            requires
                step == 0,
        ;
        lemma_turn_under_way(m, side, step, frames);
        assert(side * 0 == 0) by (nonlinear_arith);
        assert(normalized(m.heading) == m.heading);
        assert(mid_turn(m, side, step, frames as int) == m);
    } else {
        let last = frames_to_turn(step);
        lemma_frames_to_turn(step);
        if frames == 0 {
            lemma_turn_under_way(m, side, step, 0);
            assert(mid_turn(m, side, step, 0) == turn_run(m, step, frames));
        } else {
            let before = (frames - 1) as nat;
            lemma_turn_never_completes(m, side, step, before);
            let done = choose|done: int|
                0 <= done <= last && #[trigger] mid_turn(m, side, step, done) == turn_run(
                    m,
                    step,
                    before,
                );
            lemma_steps_grow(done, last, step);
            if done < last {
                lemma_steps_grow(done, last - 1, step);
                lemma_steps_grow(done + 1, last, step);
                lemma_turn_frame(m, side, step, done);
                if done + 1 < last {
                    lemma_steps_grow(done + 1, last - 1, step);
                }
                assert(mid_turn(m, side, step, done + 1) == turn_run(m, step, frames));
                lemma_side(side, QUARTER_TURN - (done + 1) * step);
            } else {
                // The overshoot is taken back: the turn now runs the other way.
                lemma_steps_grow(last - 1, last, step);
                lemma_turn_back(m, side, step, last);
                assert(mid_turn(m, side, step, last - 1) == turn_run(m, step, frames));
                lemma_side(side, QUARTER_TURN - (last - 1) * step);
            }
        }
    }
}

/// A side times an angle is the angle or its opposite.
proof fn lemma_side(side: int, angle: int)
    requires
        side == 1 || side == -1,
    ensures
        side == 1 ==> side * angle == angle,
        side == -1 ==> side * angle == -angle,
{
    assert(1 * angle == angle) by (nonlinear_arith);
    assert((-1) * angle == -angle) by (nonlinear_arith);
}

/// One frame of the turn controller after an overshoot of a degree or more
/// undoes the frame that overshot.
proof fn lemma_turn_back(m: SessionModel, side: int, step: int, frames: int)
    requires
        quarter_turn_pending(m, side),
        step > 0,
        frames >= 1,
        QUARTER_TURN - frames * step <= -DEGREE,
        QUARTER_TURN - (frames - 1) * step >= DEGREE,
    ensures
        turned(mid_turn(m, side, step, frames), step) == mid_turn(m, side, step, frames - 1),
{
    lemma_steps_grow(frames - 1, frames, step);
    let t = frames * step;
    let t0 = (frames - 1) * step;
    assert(t == t0 + step);
    lemma_side(side, t);
    lemma_side(side, t0);
    lemma_side(side, QUARTER_TURN - t);
    lemma_side(side, QUARTER_TURN - t0);
    if side == 1 {
        lemma_swing_twice(m.heading + t, -step);
    } else {
        lemma_swing_twice(m.heading - t, step);
    }
}

} // verus!
