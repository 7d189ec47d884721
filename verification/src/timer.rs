//! One-shot cooldown timers and repeating animation timers.
//!
//! A cooldown timer is the per-weapon state machine: `Paused` (never ticks
//! down; the initial state of enemy weapons), `Cooling` (accumulates elapsed
//! time) and `Ready` (the full duration has elapsed). Spawn intervals use the
//! same one-shot timer, never paused.

use vstd::prelude::*;
use crate::geom::DT_LIMIT;

verus! {

#[derive(Clone, Copy, PartialEq, Eq, Structural, Debug)]
pub enum TimerState {
    Paused,
    Cooling,
    Ready,
}

/// A one-shot timer: elapsed time accumulates up to the duration and stays
/// there until the timer is reset. While paused it does not advance.
#[derive(Clone, Copy, PartialEq, Eq, Structural, Debug)]
pub struct Timer {
    pub duration_us: u64,
    pub elapsed_us: u64,
    pub paused: bool,
}

/// The timer after one frame of `dt` microseconds.
pub open spec fn spec_ticked(t: Timer, dt: int) -> Timer {
    if t.paused {
        t
    } else if t.elapsed_us + dt >= t.duration_us {
        Timer { elapsed_us: t.duration_us, ..t }
    } else {
        Timer { elapsed_us: (t.elapsed_us + dt) as u64, ..t }
    }
}

impl Timer {
    pub open spec fn wf(self) -> bool {
        self.elapsed_us <= self.duration_us
    }

    pub open spec fn spec_finished(self) -> bool {
        self.elapsed_us >= self.duration_us
    }

    pub open spec fn state(self) -> TimerState {
        if self.paused {
            TimerState::Paused
        } else if self.spec_finished() {
            TimerState::Ready
        } else {
            TimerState::Cooling
        }
    }

    /// A running timer with nothing elapsed yet.
    pub fn new(duration_us: u64) -> (t: Timer)
        ensures
            t == (Timer { duration_us, elapsed_us: 0, paused: false }),
    {
        Timer { duration_us, elapsed_us: 0, paused: false }
    }

    /// A paused timer with nothing elapsed yet: the initial state of every
    /// weapon cooldown, released by the first valid fire trigger.
    pub fn new_paused(duration_us: u64) -> (t: Timer)
        ensures
            t == (Timer { duration_us, elapsed_us: 0, paused: true }),
    {
        Timer { duration_us, elapsed_us: 0, paused: true }
    }

    /// Advance by one frame's elapsed time. A paused timer does not change;
    /// in particular a zero `dt` never changes any timer.
    pub fn tick(&mut self, dt: u64)
        requires
            old(self).wf(),
        ensures
            *final(self) == spec_ticked(*old(self), dt as int),
            final(self).wf(),
    {
        if !self.paused {
            if dt >= self.duration_us - self.elapsed_us {
                self.elapsed_us = self.duration_us;
            } else {
                self.elapsed_us = self.elapsed_us + dt;
            }
        }
    }

    pub fn finished(&self) -> (r: bool)
        ensures
            r == self.spec_finished(),
    {
        self.elapsed_us >= self.duration_us
    }

    pub fn is_paused(&self) -> (r: bool)
        ensures
            r == self.paused,
    {
        self.paused
    }

    pub fn unpause(&mut self)
        ensures
            *final(self) == (Timer { paused: false, ..*old(self) }),
    {
        self.paused = false;
    }

    /// Start the cooldown over: nothing elapsed, same duration.
    pub fn reset(&mut self)
        ensures
            *final(self) == (Timer { elapsed_us: 0, ..*old(self) }),
    {
        self.elapsed_us = 0;
    }
}

/// Law: advancing a timer by zero elapsed time changes nothing; in
/// particular a `Ready` cooldown stays `Ready` and keeps its fields.
pub proof fn lemma_tick_zero_is_identity(t: Timer)
    requires
        t.wf(),
    ensures
        spec_ticked(t, 0) == t,
        spec_ticked(t, 0).state() == t.state(),
{
}

/// Law: a paused timer never advances, whatever the frame time.
pub proof fn lemma_paused_timer_is_frozen(t: Timer, dt: int)
    requires
        t.state() == TimerState::Paused,
    ensures
        spec_ticked(t, dt) == t,
{
}

/// A repeating timer driving hit-flash and explosion frame advance: each
/// time the period elapses it fires and starts over, keeping the remainder.
#[derive(Clone, Copy, PartialEq, Eq, Structural, Debug)]
pub struct RepeatTimer {
    pub period_us: u64,
    pub elapsed_us: u64,
}

impl RepeatTimer {
    pub open spec fn wf(self) -> bool {
        0 < self.period_us <= DT_LIMIT && self.elapsed_us < self.period_us
    }

    pub fn new(period_us: u64) -> (t: RepeatTimer)
        requires
            0 < period_us <= DT_LIMIT,
        ensures
            t == (RepeatTimer { period_us, elapsed_us: 0 }),
            t.wf(),
    {
        RepeatTimer { period_us, elapsed_us: 0 }
    }

    /// Advance by one frame; reports whether the period elapsed this frame.
    pub fn tick(&mut self, dt: u64) -> (fired: bool)
        requires
            old(self).wf(),
            dt <= DT_LIMIT,
        ensures
            fired == (old(self).elapsed_us + dt >= old(self).period_us),
            final(self).period_us == old(self).period_us,
            final(self).elapsed_us == (old(self).elapsed_us + dt) % (old(self).period_us as int),
            final(self).wf(),
    {
        let total: u64 = self.elapsed_us + dt;
        self.elapsed_us = total % self.period_us;
        total >= self.period_us
    }
}

} // verus!
