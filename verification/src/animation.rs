//! The wing-beat animation: a repeating timer that steps through the frames of a sprite sheet.

use bevy::time::{Timer, TimerMode};
use std::time::Duration;
use vstd::prelude::*;

verus! {

/// Time between two frames of the player's animation, in nanoseconds.
pub const ANIMATION_PERIOD_NANOS: u64 = 300_000_000;

/// First and last frame of an animation on its sprite sheet.
#[derive(Clone, Copy, Debug, PartialEq, Eq, Structural)]
pub struct AnimationIndices {
    pub first: usize,
    pub last: usize,
}

/// A repeating timer, held as the time run since it last rang and the time between two rings.
#[derive(Clone, Copy, Debug, PartialEq, Eq, Structural)]
pub struct AnimationTimer {
    pub elapsed_nanos: u64,
    pub period_nanos: u64,
}

/// The frame that follows `index`: the first one after the last, else the next one.
pub open spec fn next_frame(indices: AnimationIndices, index: usize) -> int {
    if index == indices.last {
        indices.first as int
    } else {
        index + 1
    }
}

/// What a repeating timer shows after `delta` more nanoseconds: the time run so
/// far, less every whole period in it. A timer with no period always shows zero.
pub open spec fn elapsed_after_tick(elapsed: u64, period: u64, delta: u64) -> int {
    if period == 0 {
        0
    } else {
        (elapsed + delta) % (period as int)
    }
}

/// Whether a repeating timer rings on a tick of `delta` nanoseconds. It counts the
/// whole periods that have run in a 32-bit counter and rings when that counter is
/// not zero. A timer with no period always rings.
pub open spec fn rings_on_tick(elapsed: u64, period: u64, delta: u64) -> bool {
    period == 0 || ((elapsed + delta) / (period as int)) % 0x1_0000_0000 != 0
}

/// Runs `bevy::time::Timer::tick` on a repeating timer that has run `elapsed_nanos`
/// of its `period_nanos`, and reads back `elapsed` and `just_finished`.
///
/// Trusted, from the timer's source: the tick adds `delta_nanos` to the elapsed
/// time; once the period is reached it stores the number of whole periods,
/// cut to 32 bits, and keeps the remainder as the new elapsed time;
/// `just_finished` tells whether the stored number is above zero.
#[verifier::external_body]
fn tick_repeating_timer(elapsed_nanos: u64, period_nanos: u64, delta_nanos: u64) -> (out: (
    u64,
    bool,
))
    ensures
        out.0 == elapsed_after_tick(elapsed_nanos, period_nanos, delta_nanos),
        out.1 == rings_on_tick(elapsed_nanos, period_nanos, delta_nanos),
{
    let mut timer = Timer::new(Duration::from_nanos(period_nanos), TimerMode::Repeating);
    timer.set_elapsed(Duration::from_nanos(elapsed_nanos));
    timer.tick(Duration::from_nanos(delta_nanos));
    (timer.elapsed().as_nanos() as u64, timer.just_finished())
}

impl AnimationIndices {
    /// Whether the frame after `index` can be numbered.
    pub open spec fn can_advance(&self, index: usize) -> bool {
        index != self.last ==> index < usize::MAX
    }

    /// The frame to show once the timer has ticked: the following one if it rang, else the same.
    pub fn advance(&self, index: usize, just_finished: bool) -> (shown: usize)
        requires
            self.can_advance(index),
        ensures
            shown == if just_finished {
                next_frame(*self, index)
            } else {
                index as int
            },
    {
        if just_finished {
            if index == self.last {
                self.first
            } else {
                index + 1
            }
        } else {
            index
        }
    }
}

impl AnimationTimer {
    /// A timer that rings every `period_nanos` nanoseconds and has not run yet.
    pub fn repeating(period_nanos: u64) -> (timer: Self)
        ensures
            timer.elapsed_nanos == 0,
            timer.period_nanos == period_nanos,
    {
        AnimationTimer { elapsed_nanos: 0, period_nanos }
    }

    /// Lets `delta_nanos` nanoseconds pass and tells whether the timer rang.
    pub fn tick(&mut self, delta_nanos: u64) -> (just_finished: bool)
        ensures
            final(self).period_nanos == old(self).period_nanos,
            final(self).elapsed_nanos == elapsed_after_tick(
                old(self).elapsed_nanos,
                old(self).period_nanos,
                delta_nanos,
            ),
            just_finished == rings_on_tick(
                old(self).elapsed_nanos,
                old(self).period_nanos,
                delta_nanos,
            ),
    {
        let (elapsed, just_finished) = tick_repeating_timer(
            self.elapsed_nanos,
            self.period_nanos,
            delta_nanos,
        );
        self.elapsed_nanos = elapsed;
        just_finished
    }
}

/// Advances an animation by `delta_nanos` nanoseconds: the timer ticks, and the
/// sprite moves on to its next frame whenever the timer rings.
pub fn animate_sprite(
    delta_nanos: u64,
    indices: &AnimationIndices,
    timer: &mut AnimationTimer,
    index: &mut usize,
)
    requires
        indices.can_advance(*old(index)),
    ensures
        final(timer).period_nanos == old(timer).period_nanos,
        final(timer).elapsed_nanos == elapsed_after_tick(
            old(timer).elapsed_nanos,
            old(timer).period_nanos,
            delta_nanos,
        ),
        *final(index) == if rings_on_tick(
            old(timer).elapsed_nanos,
            old(timer).period_nanos,
            delta_nanos,
        ) {
            next_frame(*indices, *old(index))
        } else {
            *old(index) as int
        },
{
    let just_finished = timer.tick(delta_nanos);
    *index = indices.advance(*index, just_finished);
}

} // verus!
