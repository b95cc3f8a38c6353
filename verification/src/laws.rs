//! The state machine's global properties, proved once and for all over the
//! spec-level transition functions that every method's contract refers to.

use vstd::prelude::*;
use crate::timer::IntervalTimer;
use crate::timer::MIN_WORK_MS;
use crate::timer::decrease_spec;
use crate::timer::fires_spec;
use crate::timer::flip_spec;
use crate::timer::increase_spec;
use crate::timer::remaining_spec;
use crate::timer::reset_spec;
use crate::timer::resume_spec;
use crate::timer::start_spec;
use crate::timer::stop_spec;
use crate::timer::toggle_pause_spec;
use crate::timer::update_spec;

verus! {

/// The remaining time is never negative, whatever the phase and whatever
/// the clock reads: it is clamped at zero instead of underflowing.
pub proof fn lemma_remaining_never_negative(t: IntervalTimer, now: u64)
    ensures
        remaining_spec(t, now) >= 0,
{
}

/// The durations stay linked: after every `increase_duration` or
/// `decrease_duration` call the rest duration is exactly one fifth of the
/// work duration, and every other operation leaves both durations alone —
/// so the ratio holds after any call sequence that ends in a duration
/// adjustment, and is preserved ever after.
pub proof fn lemma_duration_ratio(t: IntervalTimer, now: u64, delta: u64)
    ensures
        increase_spec(t, delta).rest_duration == increase_spec(t, delta).work_duration / 5,
        decrease_spec(t, delta).rest_duration == decrease_spec(t, delta).work_duration / 5,
        start_spec(t, now).work_duration == t.work_duration,
        start_spec(t, now).rest_duration == t.rest_duration,
        stop_spec(t, now).work_duration == t.work_duration,
        stop_spec(t, now).rest_duration == t.rest_duration,
        resume_spec(t, now).work_duration == t.work_duration,
        resume_spec(t, now).rest_duration == t.rest_duration,
        reset_spec(t).work_duration == t.work_duration,
        reset_spec(t).rest_duration == t.rest_duration,
        flip_spec(t, now).work_duration == t.work_duration,
        flip_spec(t, now).rest_duration == t.rest_duration,
        update_spec(t, now).work_duration == t.work_duration,
        update_spec(t, now).rest_duration == t.rest_duration,
        toggle_pause_spec(t, now).work_duration == t.work_duration,
        toggle_pause_spec(t, now).rest_duration == t.rest_duration,
{
}

/// `decrease_duration` never drives the work duration below the five-minute
/// floor, whatever the decrement and however often it is called.
pub proof fn lemma_decrease_floor(t: IntervalTimer, delta: u64)
    ensures
        decrease_spec(t, delta).work_duration >= MIN_WORK_MS,
{
}

/// Pausing at `pause_at` and resuming at `resume_at` leaves the remaining
/// time exactly what it was at the moment of pausing: the resume shifts the
/// deadline later by exactly the paused span and restores the phase that
/// was running. (The one exception, excluded here, is a deadline so close
/// to the end of the representable range that the shift would overflow.)
pub proof fn lemma_pause_resume_preserves_remaining(
    t: IntervalTimer,
    pause_at: u64,
    resume_at: u64,
)
    requires
        t.phase is Working || t.phase is Resting,
        pause_at <= resume_at,
        t.deadline + (resume_at - pause_at) <= u64::MAX,
    ensures
        resume_spec(stop_spec(t, pause_at), resume_at).phase == t.phase,
        resume_spec(stop_spec(t, pause_at), resume_at).deadline == t.deadline + (resume_at
            - pause_at),
        remaining_spec(resume_spec(stop_spec(t, pause_at), resume_at), resume_at)
            == remaining_spec(t, pause_at),
{
}

/// `update` is idempotent while time remains: as long as the remaining time
/// is positive, any number of repeated calls changes nothing and fires no
/// alert.
pub proof fn lemma_update_idempotent_while_running(t: IntervalTimer, now: u64)
    requires
        remaining_spec(t, now) > 0,
    ensures
        update_spec(t, now) == t,
        !fires_spec(t, now),
        update_spec(update_spec(t, now), now) == t,
{
}

/// One `update` call performs at most one phase transition, however far in
/// the past the deadline lies: an expired work phase becomes exactly a rest
/// phase with a full fresh rest deadline, an expired rest phase exactly a
/// work phase with a full fresh work deadline — never two flips in one
/// call.
pub proof fn lemma_update_single_flip(t: IntervalTimer, now: u64)
    requires
        fires_spec(t, now),
    ensures
        t.phase is Working ==> update_spec(t, now).phase is Resting,
        t.phase is Resting ==> update_spec(t, now).phase is Working,
        t.phase is Working ==> update_spec(t, now).deadline == crate::timer::sat_add(
            now,
            t.rest_duration,
        ),
        t.phase is Resting ==> update_spec(t, now).deadline == crate::timer::sat_add(
            now,
            t.work_duration,
        ),
{
}

} // verus!
