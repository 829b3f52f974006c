//! The timers that gate a session: one for the animation or fade after each
//! step, one for the session as a whole. All times are in nanoseconds.

use vstd::prelude::*;

verus! {

/// How long the animation of a step lasts.
pub const ANIM_DURATION: u64 = 400_000_000;

/// How long the fade after a violation lasts.
pub const FADE_DURATION: u64 = 1_000_000_000;

/// How long a session lasts.
pub const GAME_DURATION: u64 = 90_000_000_000;

/// A timer that runs once: it counts the time ticked into it until it
/// reaches its duration, and is finished from then on until it is reset.
#[derive(Debug, Copy, Clone, PartialEq, Eq, Structural)]
pub struct Timer {
    pub elapsed: u64,
    pub duration: u64,
    pub finished: bool,
}

impl Timer {
    /// A timer of `duration` that has not run yet.
    pub open spec fn fresh(duration: u64) -> Timer {
        Timer { elapsed: 0, duration, finished: false }
    }

    /// The timer after `delta` more time. A finished timer stays as it is. A
    /// running one finishes when its time reaches its duration, and then
    /// stands at its duration.
    pub open spec fn ticked(self, delta: u64) -> Timer {
        if self.finished {
            self
        } else if self.elapsed + delta >= self.duration {
            Timer { elapsed: self.duration, duration: self.duration, finished: true }
        } else {
            Timer { elapsed: (self.elapsed + delta) as u64, duration: self.duration, finished: false }
        }
    }

    /// The timer set back to its start, with the same duration.
    pub open spec fn rewound(self) -> Timer {
        Timer::fresh(self.duration)
    }

    /// The time left until the duration is reached.
    pub open spec fn left(self) -> int {
        if self.elapsed >= self.duration {
            0
        } else {
            self.duration - self.elapsed
        }
    }

    pub fn new(duration: u64) -> (timer: Timer)
        ensures
            timer == Timer::fresh(duration),
    {
        Timer { elapsed: 0, duration, finished: false }
    }

    pub fn finished(&self) -> (finished: bool)
        ensures
            finished == self.finished,
    {
        self.finished
    }

    pub fn elapsed(&self) -> (elapsed: u64)
        ensures
            elapsed == self.elapsed,
    {
        self.elapsed
    }

    pub fn duration(&self) -> (duration: u64)
        ensures
            duration == self.duration,
    {
        self.duration
    }

    /// The time left until the duration is reached.
    pub fn remaining(&self) -> (left: u64)
        ensures
            left == self.left(),
    {
        if self.elapsed >= self.duration {
            0
        } else {
            self.duration - self.elapsed
        }
    }

    /// Sets the duration. Whether the timer is finished changes only with the
    /// next tick.
    pub fn set_duration(&mut self, duration: u64)
        ensures
            *final(self) == (Timer { duration, ..*old(self) }),
    {
        self.duration = duration;
    }

    /// Advances the timer by `delta`.
    pub fn tick(&mut self, delta: u64)
        ensures
            *final(self) == old(self).ticked(delta),
    {
        if self.finished {
            return ;
        }
        if self.elapsed >= self.duration || delta >= self.duration - self.elapsed {
            self.elapsed = self.duration;
            self.finished = true;
        } else {
            self.elapsed = self.elapsed + delta;
        }
    }

    /// Sets the timer back to its start.
    pub fn reset(&mut self)
        ensures
            *final(self) == old(self).rewound(),
    {
        self.elapsed = 0;
        self.finished = false;
    }
}

/// The timer of the animation or fade that follows a step.
#[derive(Debug, Copy, Clone, PartialEq, Eq, Structural)]
pub struct AnimationTimer(pub Timer);

/// The timer of the whole session.
#[derive(Debug, Copy, Clone, PartialEq, Eq, Structural)]
pub struct GameTimer(pub Timer);

} // verus!
