//! The repeating timer that paces footstep sounds.

use crate::model::step_time;
use bevy::time::{Timer, TimerMode};
use std::time::Duration;
use vstd::prelude::*;

verus! {

/// Nanoseconds between two footsteps at walk speed 1.0: a quarter of a second.
pub const STEP_PERIOD: u64 = 250_000_000;

/// Runs one `tick` of a repeating `bevy::time::Timer` with the given period
/// that has `elapsed` nanoseconds on it, by `delta` nanoseconds.
///
/// Trusted: `Timer::tick` adds `delta` to the elapsed time; a repeating timer
/// then keeps the remainder modulo its period, and `Timer::just_finished`
/// reports whether at least one whole period was completed. The timer counts
/// the completed periods in a `u32`, so their number must fit one.
#[verifier::external_body]
fn tick_repeating(period: u64, elapsed: u64, delta: u64) -> (out: (u64, bool))
    requires
        period > 0,
        (elapsed + delta) / (period as int) <= u32::MAX,
    ensures
        out.0 == (elapsed + delta) % (period as int),
        out.1 == (elapsed + delta >= period),
{
    let mut timer = Timer::new(Duration::from_nanos(period), TimerMode::Repeating);
    timer.set_elapsed(Duration::from_nanos(elapsed));
    timer.tick(Duration::from_nanos(delta));
    (timer.elapsed().as_nanos() as u64, timer.just_finished())
}

/// Advances a footstep timer that stands at `elapsed` by one frame walked at
/// `walk_speed`. Returns the new reading and whether a footstep is due.
///
/// However long the frame, at most one footstep is due: whole periods beyond
/// the first are dropped before the timer runs.
pub fn run_step_timer(elapsed: u64, walk_speed: u32, delta_nanos: u64) -> (out: (u64, bool))
    requires
        elapsed < STEP_PERIOD,
    ensures
        out.0 == (elapsed + step_time(walk_speed, delta_nanos)) % (STEP_PERIOD as int),
        out.1 == (elapsed + step_time(walk_speed, delta_nanos) >= STEP_PERIOD),
{
    assert(0 <= walk_speed * delta_nanos <= 0xffff_ffff * 0xffff_ffff_ffff_ffff)
        by (nonlinear_arith)
        requires
            0 <= walk_speed <= 0xffff_ffff,
            0 <= delta_nanos <= 0xffff_ffff_ffff_ffff,
    ;
    let time: u128 = (walk_speed as u128) * (delta_nanos as u128) / 1000;
    let period: u128 = STEP_PERIOD as u128;
    let delta: u128 = if time >= period {
        period + time % period
    } else {
        time
    };
    tick_repeating(STEP_PERIOD, elapsed, delta as u64)
}

} // verus!
