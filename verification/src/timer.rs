//! The interval-timer state machine.
//!
//! All durations and clock readings are in milliseconds. Clock readings come
//! from a monotonic source supplied by the caller: every operation that
//! depends on the current time takes it as the `now` argument, so the state
//! machine itself is total and deterministic.
//!
//! Each mutating operation is specified against a spec-level transition
//! function (`start_spec`, `stop_spec`, ...); the lemmas in [`crate::laws`]
//! state the state machine's global properties over those same functions.

use vstd::prelude::*;

verus! {

/// Work durations saturate at this floor when decreased: five minutes.
pub const MIN_WORK_MS: u64 = 300000;

/// The timer's current phase.
///
/// `Paused` records the monotonic instant at which pausing began, so that
/// resuming can shift the deadline forward by exactly the paused span, and
/// whether the rest phase was active, so that resuming restores the phase
/// that was running when the timer was paused.
#[derive(Clone, Copy, PartialEq, Eq, Structural, Debug)]
pub enum Phase {
    /// Never started, or explicitly reset.
    Inactive,
    /// A work interval is running.
    Working,
    /// A rest interval is running.
    Resting,
    /// Frozen at instant `at`; `resting` tells which phase was interrupted.
    Paused { at: u64, resting: bool },
}

/// A Pomodoro-style interval timer.
///
/// Holds the configured durations, one absolute deadline on the monotonic
/// clock, and the current phase. The deadline is meaningful only while
/// `Working` or `Resting` (and, frozen, while `Paused`); it is ignored while
/// `Inactive`.
///
/// `rest_duration` is one fifth of `work_duration` from construction on;
/// the duration-adjustment operations re-establish that ratio on every
/// call, and no other operation touches either duration.
#[derive(Clone, Copy, PartialEq, Eq, Structural, Debug)]
pub struct IntervalTimer {
    /// Length of a work phase, in milliseconds.
    pub work_duration: u64,
    /// Length of a rest phase, in milliseconds; derived as
    /// `work_duration / 5` at construction and kept there by the
    /// duration-adjustment operations.
    pub rest_duration: u64,
    /// Absolute monotonic instant at which the running phase ends.
    pub deadline: u64,
    /// The current phase.
    pub phase: Phase,
}

/// `a + b`, stopping at the largest representable value.
pub open spec fn sat_add(a: u64, b: u64) -> u64 {
    if a + b > u64::MAX {
        u64::MAX
    } else {
        (a + b) as u64
    }
}

/// `a - b`, stopping at zero.
pub open spec fn sat_sub(a: u64, b: u64) -> u64 {
    if a >= b {
        (a - b) as u64
    } else {
        0
    }
}

/// The time left in the current phase at monotonic instant `now`:
/// the span until the deadline (clamped at zero) while running, the span
/// frozen at the pause instant while paused, and the full work duration
/// while inactive.
pub open spec fn remaining_spec(t: IntervalTimer, now: u64) -> u64 {
    match t.phase {
        Phase::Inactive => t.work_duration,
        Phase::Working => sat_sub(t.deadline, now),
        Phase::Resting => sat_sub(t.deadline, now),
        Phase::Paused { at, resting: _ } => sat_sub(t.deadline, at),
    }
}

/// The timer after `start` at instant `now`.
///
/// - `Inactive` with a zero work duration: starting is a no-op.
/// - `Inactive` otherwise: a work phase begins, ending at `now + work_duration`.
/// - `Paused`: same as `resume_spec`.
/// - Already running: no-op.
pub open spec fn start_spec(t: IntervalTimer, now: u64) -> IntervalTimer {
    match t.phase {
        Phase::Inactive => if t.work_duration == 0 {
            t
        } else {
            IntervalTimer {
                deadline: sat_add(now, t.work_duration),
                phase: Phase::Working,
                ..t
            }
        },
        Phase::Paused { at: _, resting: _ } => resume_spec(t, now),
        _ => t,
    }
}

/// The timer after `stop` (pause) at instant `now`: a running phase freezes
/// into `Paused`, recording `now` and which phase was interrupted; the
/// deadline is left untouched. In any other phase, a no-op.
pub open spec fn stop_spec(t: IntervalTimer, now: u64) -> IntervalTimer {
    match t.phase {
        Phase::Working => IntervalTimer { phase: Phase::Paused { at: now, resting: false }, ..t },
        Phase::Resting => IntervalTimer { phase: Phase::Paused { at: now, resting: true }, ..t },
        _ => t,
    }
}

/// The timer after `resume` at instant `now`: the deadline moves forward by
/// exactly the span spent paused (`now - at`, clamped at zero, saturating at
/// the largest representable instant), and the phase that was interrupted
/// comes back. In any phase but `Paused`, a no-op.
pub open spec fn resume_spec(t: IntervalTimer, now: u64) -> IntervalTimer {
    match t.phase {
        Phase::Paused { at, resting } => IntervalTimer {
            deadline: sat_add(t.deadline, sat_sub(now, at)),
            phase: if resting {
                Phase::Resting
            } else {
                Phase::Working
            },
            ..t
        },
        _ => t,
    }
}

/// The timer after `reset`: the phase returns to `Inactive`, discarding any
/// progress; durations and the (now inert) deadline stay as they are.
pub open spec fn reset_spec(t: IntervalTimer) -> IntervalTimer {
    IntervalTimer { phase: Phase::Inactive, ..t }
}

/// The timer after `flip` at instant `now`: `Working` turns into `Resting`
/// with a fresh deadline of `now + rest_duration`; every other phase turns
/// into `Working` with a fresh deadline of `now + work_duration`.
pub open spec fn flip_spec(t: IntervalTimer, now: u64) -> IntervalTimer {
    match t.phase {
        Phase::Working => IntervalTimer {
            deadline: sat_add(now, t.rest_duration),
            phase: Phase::Resting,
            ..t
        },
        _ => IntervalTimer {
            deadline: sat_add(now, t.work_duration),
            phase: Phase::Working,
            ..t
        },
    }
}

/// Whether `update` at instant `now` performs a phase flip (and so owes the
/// host an alert): a phase is running and its remaining time has reached
/// zero.
pub open spec fn fires_spec(t: IntervalTimer, now: u64) -> bool {
    (t.phase is Working || t.phase is Resting) && remaining_spec(t, now) == 0
}

/// The timer after `update` at instant `now`: exactly one flip when
/// `fires_spec` holds, otherwise unchanged.
pub open spec fn update_spec(t: IntervalTimer, now: u64) -> IntervalTimer {
    if fires_spec(t, now) {
        flip_spec(t, now)
    } else {
        t
    }
}

/// The timer after `increase_duration(delta)`: the work duration grows by
/// `delta` (saturating at the largest representable span), the rest duration
/// is re-derived as one fifth of it, and a deadline that can absorb the shift
/// moves later by exactly `delta` so that a running phase gains exactly
/// `delta` of remaining time; a shift that would overflow leaves the deadline
/// unchanged.
pub open spec fn increase_spec(t: IntervalTimer, delta: u64) -> IntervalTimer {
    let work = sat_add(t.work_duration, delta);
    IntervalTimer {
        work_duration: work,
        rest_duration: work / 5,
        deadline: if t.deadline + delta > u64::MAX {
            t.deadline
        } else {
            (t.deadline + delta) as u64
        },
        phase: t.phase,
    }
}

/// The timer after `decrease_duration(delta)`: the work duration shrinks by
/// `delta` but never below the five-minute floor, the rest duration is
/// re-derived as one fifth of it, and a deadline that can absorb the shift
/// moves earlier by exactly `delta` so that a running phase loses exactly
/// `delta` of remaining time; a shift that would underflow leaves the
/// deadline unchanged.
pub open spec fn decrease_spec(t: IntervalTimer, delta: u64) -> IntervalTimer {
    let lowered = sat_sub(t.work_duration, delta);
    let work = if lowered < MIN_WORK_MS {
        MIN_WORK_MS
    } else {
        lowered
    };
    IntervalTimer {
        work_duration: work,
        rest_duration: work / 5,
        deadline: if delta <= t.deadline {
            (t.deadline - delta) as u64
        } else {
            t.deadline
        },
        phase: t.phase,
    }
}

/// The timer after `toggle_pause` at instant `now`: a running phase pauses;
/// a paused or inactive timer starts (resumes).
pub open spec fn toggle_pause_spec(t: IntervalTimer, now: u64) -> IntervalTimer {
    match t.phase {
        Phase::Working | Phase::Resting => stop_spec(t, now),
        _ => start_spec(t, now),
    }
}

/// `a + b` in executable code, stopping at `u64::MAX`.
fn sat_add_exec(a: u64, b: u64) -> (r: u64)
    ensures
        r == sat_add(a, b),
{
    if a <= u64::MAX - b {
        a + b
    } else {
        u64::MAX
    }
}

impl IntervalTimer {
    /// Creates a timer that has not been started: phase `Inactive`, with the
    /// given work duration in milliseconds and the rest duration derived
    /// from it as one fifth — the rest duration is never set independently.
    /// The deadline is inert until `start` sets it.
    pub fn new(work_duration: u64) -> (t: IntervalTimer)
        ensures
            t.work_duration == work_duration,
            t.rest_duration == work_duration / 5,
            t.deadline == 0,
            t.phase is Inactive,
    {
        IntervalTimer {
            work_duration,
            rest_duration: work_duration / 5,
            deadline: 0,
            phase: Phase::Inactive,
        }
    }

    /// The time left in the current phase at monotonic instant `now`,
    /// in milliseconds. Clamps at zero; never underflows.
    pub fn remaining_time(&self, now: u64) -> (r: u64)
        ensures
            r == remaining_spec(*self, now),
    {
        match self.phase {
            Phase::Inactive => self.work_duration,
            Phase::Working | Phase::Resting => {
                if self.deadline >= now {
                    self.deadline - now
                } else {
                    0
                }
            },
            Phase::Paused { at, resting: _ } => {
                if self.deadline >= at {
                    self.deadline - at
                } else {
                    0
                }
            },
        }
    }

    /// Starts an inactive timer, or resumes a paused one.
    ///
    /// Starting with a zero work duration is a no-op: the timer stays
    /// `Inactive`. Resuming shifts the deadline forward by exactly the span
    /// spent paused and restores the interrupted phase, so the remaining
    /// time is exactly what it was at the moment of pausing.
    pub fn start(&mut self, now: u64)
        ensures
            *final(self) == start_spec(*old(self), now),
    {
        match self.phase {
            Phase::Inactive => {
                if self.work_duration == 0 {
                    return ;
                }
                self.deadline = sat_add_exec(now, self.work_duration);
                self.phase = Phase::Working;
            },
            Phase::Paused { at: _, resting: _ } => {
                self.resume(now);
            },
            _ => {},
        }
    }

    /// Pauses a running phase, recording the pause instant and the phase
    /// that was interrupted; the deadline stays untouched. A no-op unless
    /// `Working` or `Resting`.
    pub fn stop(&mut self, now: u64)
        ensures
            *final(self) == stop_spec(*old(self), now),
    {
        match self.phase {
            Phase::Working => {
                self.phase = Phase::Paused { at: now, resting: false };
            },
            Phase::Resting => {
                self.phase = Phase::Paused { at: now, resting: true };
            },
            _ => {},
        }
    }

    /// Resumes a paused timer: the deadline moves forward by exactly the
    /// paused span (`now` minus the pause instant, clamped at zero), and the
    /// phase that was active when pausing comes back. A no-op unless
    /// `Paused`.
    pub fn resume(&mut self, now: u64)
        ensures
            *final(self) == resume_spec(*old(self), now),
    {
        match self.phase {
            Phase::Paused { at, resting } => {
                let paused_span = if now >= at {
                    now - at
                } else {
                    0
                };
                self.deadline = sat_add_exec(self.deadline, paused_span);
                self.phase = if resting {
                    Phase::Resting
                } else {
                    Phase::Working
                };
            },
            _ => {},
        }
    }

    /// Returns the timer to `Inactive`, discarding the running phase and its
    /// deadline. Durations are kept.
    pub fn reset(&mut self)
        ensures
            *final(self) == reset_spec(*old(self)),
    {
        self.phase = Phase::Inactive;
    }

    /// Advances the state machine at instant `now`: if a phase is running
    /// and its time is up, performs exactly one flip and returns `true` (the
    /// host should alert the user); otherwise changes nothing and returns
    /// `false`. Idempotent whenever the remaining time is still positive.
    pub fn update(&mut self, now: u64) -> (flipped: bool)
        ensures
            *final(self) == update_spec(*old(self), now),
            flipped == fires_spec(*old(self), now),
    {
        match self.phase {
            Phase::Working | Phase::Resting => {
                if self.remaining_time(now) == 0 {
                    self.flip(now);
                    true
                } else {
                    false
                }
            },
            _ => false,
        }
    }

    /// Forces the phase flip: `Working` becomes `Resting` with a fresh
    /// deadline of `now + rest_duration`; any other phase becomes `Working`
    /// with a fresh deadline of `now + work_duration`. Every flip is an
    /// alert: the host should notify the user after calling this directly.
    pub fn flip(&mut self, now: u64)
        ensures
            *final(self) == flip_spec(*old(self), now),
    {
        match self.phase {
            Phase::Working => {
                self.deadline = sat_add_exec(now, self.rest_duration);
                self.phase = Phase::Resting;
            },
            _ => {
                self.deadline = sat_add_exec(now, self.work_duration);
                self.phase = Phase::Working;
            },
        }
    }

    /// Pauses a running phase, or starts/resumes a stopped one.
    pub fn toggle_pause(&mut self, now: u64)
        ensures
            *final(self) == toggle_pause_spec(*old(self), now),
    {
        match self.phase {
            Phase::Working | Phase::Resting => self.stop(now),
            _ => self.start(now),
        }
    }

    /// Grows the work duration by `delta` milliseconds (saturating at the
    /// largest representable span) and re-derives the rest duration as one
    /// fifth of it. A deadline that can absorb the shift moves later by
    /// exactly `delta`, so a running phase gains exactly `delta` of
    /// remaining time; otherwise the deadline is left unchanged.
    pub fn increase_duration(&mut self, delta: u64)
        ensures
            *final(self) == increase_spec(*old(self), delta),
            final(self).rest_duration == final(self).work_duration / 5,
    {
        let work = sat_add_exec(self.work_duration, delta);
        self.work_duration = work;
        self.rest_duration = work / 5;
        if self.deadline <= u64::MAX - delta {
            self.deadline = self.deadline + delta;
        }
    }

    /// Shrinks the work duration by `delta` milliseconds, saturating at the
    /// five-minute floor, and re-derives the rest duration as one fifth of
    /// it. A deadline that can absorb the shift moves earlier by exactly
    /// `delta`, so a running phase loses exactly `delta` of remaining time;
    /// otherwise the deadline is left unchanged.
    pub fn decrease_duration(&mut self, delta: u64)
        ensures
            *final(self) == decrease_spec(*old(self), delta),
            final(self).rest_duration == final(self).work_duration / 5,
            final(self).work_duration >= MIN_WORK_MS,
    {
        let lowered = if self.work_duration >= delta {
            self.work_duration - delta
        } else {
            0
        };
        let work = if lowered < MIN_WORK_MS {
            MIN_WORK_MS
        } else {
            lowered
        };
        self.work_duration = work;
        self.rest_duration = work / 5;
        if delta <= self.deadline {
            self.deadline = self.deadline - delta;
        }
    }

    /// The current phase.
    pub fn current_phase(&self) -> (p: Phase)
        ensures
            p == self.phase,
    {
        self.phase
    }

    /// The remaining time at instant `now`, rendered as `minutes:seconds`
    /// with the seconds zero-padded to two digits (`24:05`).
    pub fn display(&self, now: u64) -> (r: String)
        ensures
            r@ == crate::render::clock_str(remaining_spec(*self, now)),
    {
        crate::render::clock_text(self.remaining_time(now))
    }
}

} // verus!
