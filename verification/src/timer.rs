//! Countdown / repeat timers.
//!
//! A `Timer` holds a duration and an elapsed time, both in
//! milliseconds. `tick(delta)` advances the elapsed time and reports
//! whether the timer crossed its duration during this call ("just
//! finished"). Two modes exist: `Once` stays finished and clamps its
//! elapsed time at the duration, `Repeating` wraps the elapsed time
//! modulo the duration on completion. A repeating timer reports "just
//! finished" at most once per call, however large the delta: callers
//! that spawn on the signal therefore spawn at most once per tick.
//! A duration of zero is legal and fires immediately. A paused timer
//! ignores `tick`.

use vstd::prelude::*;

verus! {

/// Longest duration a well-formed timer may hold, in milliseconds
/// (about 35 years); keeps `elapsed + delta` far from overflow.
pub const DURATION_LIMIT_MS: u64 = 0x100_0000_0000;

#[derive(Clone, Copy, Debug, PartialEq, Eq, Structural)]
pub enum TimerMode {
    /// Fires once, then stays finished.
    Once,
    /// Wraps around on completion and fires again.
    Repeating,
}

#[derive(Clone, Copy, Debug)]
pub struct Timer {
    pub duration_ms: u64,
    pub elapsed_ms: u64,
    pub mode: TimerMode,
    pub paused: bool,
    /// True from the first completion on (`Once`), or exactly in the
    /// ticks in which the timer completed (`Repeating`).
    pub finished: bool,
    /// True exactly when the latest `tick` crossed the duration.
    pub just_finished: bool,
}

impl Timer {
    /// Well-formedness: the elapsed time never exceeds the duration,
    /// and the duration is small enough that ticking cannot overflow.
    pub open spec fn wf(self) -> bool {
        &&& self.elapsed_ms <= self.duration_ms
        &&& self.duration_ms <= DURATION_LIMIT_MS
    }

    /// The state `tick` leaves behind: the one-step transition
    /// function of the timer, taken as the reference semantics.
    pub open spec fn tick_spec(self, delta_ms: u32) -> Timer {
        if self.paused {
            Timer { just_finished: false, ..self }
        } else if self.mode is Once && self.finished {
            Timer { just_finished: false, ..self }
        } else {
            let total = self.elapsed_ms + delta_ms;
            if total >= self.duration_ms {
                if self.mode is Once {
                    Timer {
                        elapsed_ms: self.duration_ms,
                        finished: true,
                        just_finished: true,
                        ..self
                    }
                } else {
                    Timer {
                        elapsed_ms: if self.duration_ms == 0 {
                            0
                        } else {
                            (total % (self.duration_ms as int)) as u64
                        },
                        finished: true,
                        just_finished: true,
                        ..self
                    }
                }
            } else {
                Timer {
                    elapsed_ms: total as u64,
                    finished: false,
                    just_finished: false,
                    ..self
                }
            }
        }
    }

    /// The state of a fresh, running, unfinished timer.
    pub open spec fn new_spec(duration_ms: u64, mode: TimerMode) -> Timer {
        Timer {
            duration_ms,
            elapsed_ms: 0,
            mode,
            paused: false,
            finished: false,
            just_finished: false,
        }
    }

    /// A fresh, running, unfinished timer.
    pub fn new(duration_ms: u64, mode: TimerMode) -> (t: Timer)
        requires
            duration_ms <= DURATION_LIMIT_MS,
        ensures
            t == Timer::new_spec(duration_ms, mode),
            t.wf(),
    {
        Timer {
            duration_ms,
            elapsed_ms: 0,
            mode,
            paused: false,
            finished: false,
            just_finished: false,
        }
    }

    /// Advance the timer by `delta_ms` and report whether it crossed
    /// its duration during this call.
    pub fn tick(&mut self, delta_ms: u32) -> (fired: bool)
        requires
            old(self).wf(),
        ensures
            final(self).wf(),
            *final(self) == old(self).tick_spec(delta_ms),
            fired == final(self).just_finished,
    {
        if self.paused {
            self.just_finished = false;
            return false;
        }
        if matches!(self.mode, TimerMode::Once) && self.finished {
            self.just_finished = false;
            return false;
        }
        let total: u64 = self.elapsed_ms + delta_ms as u64;
        if total >= self.duration_ms {
            match self.mode {
                TimerMode::Once => {
                    self.elapsed_ms = self.duration_ms;
                }
                TimerMode::Repeating => {
                    self.elapsed_ms = if self.duration_ms == 0 {
                        0
                    } else {
                        total % self.duration_ms
                    };
                }
            }
            self.finished = true;
            self.just_finished = true;
            true
        } else {
            self.elapsed_ms = total;
            self.finished = false;
            self.just_finished = false;
            false
        }
    }

    /// Rewind to the start; the timer is running and unfinished again.
    pub fn reset(&mut self)
        ensures
            *final(self) == (Timer {
                elapsed_ms: 0,
                finished: false,
                just_finished: false,
                ..*old(self)
            }),
    {
        self.elapsed_ms = 0;
        self.finished = false;
        self.just_finished = false;
    }

    /// Stop the timer; subsequent ticks leave it unchanged.
    pub fn pause(&mut self)
        ensures
            *final(self) == (Timer { paused: true, ..*old(self) }),
    {
        self.paused = true;
    }

    /// Let a paused timer run again.
    pub fn unpause(&mut self)
        ensures
            *final(self) == (Timer { paused: false, ..*old(self) }),
    {
        self.paused = false;
    }

    pub fn is_paused(&self) -> (b: bool)
        ensures
            b == self.paused,
    {
        self.paused
    }

    pub fn is_finished(&self) -> (b: bool)
        ensures
            b == self.finished,
    {
        self.finished
    }

    pub fn has_just_finished(&self) -> (b: bool)
        ensures
            b == self.just_finished,
    {
        self.just_finished
    }

    /// Time left until the next completion.
    pub fn remaining_ms(&self) -> (r: u64)
        requires
            self.wf(),
        ensures
            r == self.duration_ms - self.elapsed_ms,
    {
        self.duration_ms - self.elapsed_ms
    }
}

} // verus!
