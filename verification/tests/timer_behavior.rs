use pomodoro::timer::IntervalTimer;
use pomodoro::timer::Phase;
use pomodoro::timer::MIN_WORK_MS;

const MINUTE: u64 = 60_000;

fn standard() -> IntervalTimer {
    IntervalTimer::new(25 * MINUTE)
}

#[test]
fn new_timer_is_inactive_with_full_work_remaining() {
    let t = standard();
    assert_eq!(t.current_phase(), Phase::Inactive);
    assert_eq!(t.remaining_time(0), 25 * MINUTE);
    assert_eq!(t.remaining_time(123_456), 25 * MINUTE);
}

#[test]
fn new_derives_rest_as_a_fifth_of_work() {
    assert_eq!(standard().rest_duration, 5 * MINUTE);
    assert_eq!(IntervalTimer::new(10 * MINUTE).rest_duration, 2 * MINUTE);
    // Derivation truncates like integer division.
    assert_eq!(IntervalTimer::new(7).rest_duration, 1);
    assert_eq!(IntervalTimer::new(0).rest_duration, 0);
    let big = IntervalTimer::new(u64::MAX);
    assert_eq!(big.rest_duration, u64::MAX / 5);
}

#[test]
fn start_begins_a_work_phase() {
    let mut t = standard();
    t.start(1_000);
    assert_eq!(t.current_phase(), Phase::Working);
    assert_eq!(t.remaining_time(1_000), 25 * MINUTE);
    assert_eq!(t.remaining_time(1_000 + 10 * MINUTE), 15 * MINUTE);
}

#[test]
fn start_with_zero_work_duration_is_a_noop() {
    let mut t = IntervalTimer::new(0);
    t.start(5);
    assert_eq!(t.current_phase(), Phase::Inactive);
    assert_eq!(t.remaining_time(5), 0);
}

#[test]
fn start_while_running_is_a_noop() {
    let mut t = standard();
    t.start(0);
    let before = t;
    t.start(10 * MINUTE);
    assert_eq!(t, before);
}

#[test]
fn work_phase_flips_to_rest_with_one_alert() {
    let mut t = standard();
    t.start(0);
    let flipped = t.update(25 * MINUTE);
    assert!(flipped);
    assert_eq!(t.current_phase(), Phase::Resting);
    assert_eq!(t.remaining_time(25 * MINUTE), 5 * MINUTE);
    // A second poll at the same instant fires no second alert.
    assert!(!t.update(25 * MINUTE));
    assert_eq!(t.current_phase(), Phase::Resting);
}

#[test]
fn rest_phase_flips_back_to_work() {
    let mut t = standard();
    t.start(0);
    assert!(t.update(25 * MINUTE));
    assert!(t.update(30 * MINUTE));
    assert_eq!(t.current_phase(), Phase::Working);
    assert_eq!(t.remaining_time(30 * MINUTE), 25 * MINUTE);
}

#[test]
fn update_is_idempotent_while_time_remains() {
    let mut t = standard();
    t.start(0);
    let before = t;
    assert!(!t.update(10 * MINUTE));
    assert_eq!(t, before);
    assert!(!t.update(10 * MINUTE));
    assert_eq!(t, before);
    assert_eq!(t.remaining_time(10 * MINUTE), 15 * MINUTE);
}

#[test]
fn update_does_nothing_while_inactive_or_paused() {
    let mut t = standard();
    assert!(!t.update(100 * MINUTE));
    assert_eq!(t.current_phase(), Phase::Inactive);
    t.start(0);
    t.stop(MINUTE);
    let before = t;
    assert!(!t.update(100 * MINUTE));
    assert_eq!(t, before);
}

#[test]
fn late_poll_performs_exactly_one_flip() {
    let mut t = standard();
    t.start(0);
    // Poll long after the deadline: one flip, a full fresh rest deadline.
    let flipped = t.update(100 * MINUTE);
    assert!(flipped);
    assert_eq!(t.current_phase(), Phase::Resting);
    assert_eq!(t.remaining_time(100 * MINUTE), 5 * MINUTE);
}

#[test]
fn pause_freezes_the_remaining_time() {
    let mut t = standard();
    t.start(0);
    t.stop(10 * MINUTE);
    assert!(matches!(t.current_phase(), Phase::Paused { .. }));
    // Frozen: later clock readings do not shrink it.
    assert_eq!(t.remaining_time(10 * MINUTE), 15 * MINUTE);
    assert_eq!(t.remaining_time(13 * MINUTE), 15 * MINUTE);
    assert_eq!(t.remaining_time(100 * MINUTE), 15 * MINUTE);
}

#[test]
fn resume_after_a_gap_preserves_the_remaining_time() {
    let mut t = standard();
    t.start(0);
    t.stop(10 * MINUTE);
    t.resume(13 * MINUTE);
    assert_eq!(t.current_phase(), Phase::Working);
    assert_eq!(t.remaining_time(13 * MINUTE), 15 * MINUTE);
}

#[test]
fn start_also_resumes_a_paused_timer() {
    let mut t = standard();
    t.start(0);
    t.stop(10 * MINUTE);
    t.start(13 * MINUTE);
    assert_eq!(t.current_phase(), Phase::Working);
    assert_eq!(t.remaining_time(13 * MINUTE), 15 * MINUTE);
}

#[test]
fn resume_restores_an_interrupted_rest_phase() {
    let mut t = standard();
    t.start(0);
    assert!(t.update(25 * MINUTE));
    t.stop(27 * MINUTE);
    t.resume(30 * MINUTE);
    assert_eq!(t.current_phase(), Phase::Resting);
    assert_eq!(t.remaining_time(30 * MINUTE), 3 * MINUTE);
}

#[test]
fn stop_and_resume_out_of_place_are_noops() {
    let mut t = standard();
    let before = t;
    t.stop(MINUTE);
    assert_eq!(t, before);
    t.resume(2 * MINUTE);
    assert_eq!(t, before);
    t.start(0);
    t.stop(MINUTE);
    let paused = t;
    t.stop(2 * MINUTE);
    assert_eq!(t, paused);
}

#[test]
fn toggle_pause_round_trip_keeps_remaining_time() {
    let mut t = standard();
    t.start(0);
    t.toggle_pause(4 * MINUTE);
    assert!(matches!(t.current_phase(), Phase::Paused { .. }));
    t.toggle_pause(9 * MINUTE);
    assert_eq!(t.current_phase(), Phase::Working);
    assert_eq!(t.remaining_time(9 * MINUTE), 21 * MINUTE);
}

#[test]
fn toggle_pause_starts_an_inactive_timer() {
    let mut t = standard();
    t.toggle_pause(MINUTE);
    assert_eq!(t.current_phase(), Phase::Working);
    assert_eq!(t.remaining_time(MINUTE), 25 * MINUTE);
}

#[test]
fn reset_returns_to_inactive() {
    let mut t = standard();
    t.start(0);
    t.update(10 * MINUTE);
    t.reset();
    assert_eq!(t.current_phase(), Phase::Inactive);
    assert_eq!(t.remaining_time(99 * MINUTE), 25 * MINUTE);
}

#[test]
fn flip_forces_the_phase_change() {
    let mut t = standard();
    t.start(0);
    t.flip(10 * MINUTE);
    assert_eq!(t.current_phase(), Phase::Resting);
    assert_eq!(t.remaining_time(10 * MINUTE), 5 * MINUTE);
    t.flip(12 * MINUTE);
    assert_eq!(t.current_phase(), Phase::Working);
    assert_eq!(t.remaining_time(12 * MINUTE), 25 * MINUTE);
}

#[test]
fn flip_from_inactive_or_paused_begins_a_work_phase() {
    let mut t = standard();
    t.flip(MINUTE);
    assert_eq!(t.current_phase(), Phase::Working);
    assert_eq!(t.remaining_time(MINUTE), 25 * MINUTE);

    let mut p = standard();
    p.start(0);
    p.stop(2 * MINUTE);
    p.flip(6 * MINUTE);
    assert_eq!(p.current_phase(), Phase::Working);
    assert_eq!(p.remaining_time(6 * MINUTE), 25 * MINUTE);
}

#[test]
fn remaining_time_clamps_at_zero_past_the_deadline() {
    let mut t = standard();
    t.start(0);
    assert_eq!(t.remaining_time(25 * MINUTE), 0);
    assert_eq!(t.remaining_time(26 * MINUTE), 0);
    assert_eq!(t.remaining_time(u64::MAX), 0);
}

#[test]
fn increase_duration_keeps_the_ratio_and_extends_the_deadline() {
    let mut t = standard();
    t.start(0);
    t.increase_duration(5 * MINUTE);
    assert_eq!(t.work_duration, 30 * MINUTE);
    assert_eq!(t.rest_duration, 6 * MINUTE);
    // A running phase gains exactly the increment.
    assert_eq!(t.remaining_time(0), 30 * MINUTE);
}

#[test]
fn decrease_duration_keeps_the_ratio_and_shortens_the_deadline() {
    let mut t = standard();
    t.start(0);
    t.decrease_duration(10 * MINUTE);
    assert_eq!(t.work_duration, 15 * MINUTE);
    assert_eq!(t.rest_duration, 3 * MINUTE);
    // A running phase loses exactly the decrement.
    assert_eq!(t.remaining_time(0), 15 * MINUTE);
}

#[test]
fn decrease_duration_saturates_at_the_five_minute_floor() {
    let mut t = IntervalTimer::new(5 * MINUTE);
    t.decrease_duration(60 * MINUTE);
    assert_eq!(t.work_duration, 5 * MINUTE);
    assert_eq!(t.rest_duration, MINUTE);
    assert_eq!(t.work_duration, MIN_WORK_MS);
}

#[test]
fn decrease_duration_floor_holds_over_repeated_calls() {
    let mut t = standard();
    for _ in 0..10 {
        t.decrease_duration(60 * MINUTE);
        assert!(t.work_duration >= MIN_WORK_MS);
        assert_eq!(t.rest_duration, t.work_duration / 5);
    }
    assert_eq!(t.work_duration, MIN_WORK_MS);
}

#[test]
fn increase_duration_saturates_at_the_largest_span() {
    let mut t = IntervalTimer::new(u64::MAX - 10);
    t.increase_duration(100);
    assert_eq!(t.work_duration, u64::MAX);
    assert_eq!(t.rest_duration, u64::MAX / 5);
}

#[test]
fn duration_shift_that_cannot_fit_leaves_the_deadline_alone() {
    // Overflowing increase: work saturates, deadline stays.
    let mut t = standard();
    t.start(u64::MAX - 20 * MINUTE);
    let deadline_frozen = t.remaining_time(u64::MAX - 20 * MINUTE);
    t.increase_duration(u64::MAX);
    assert_eq!(t.work_duration, u64::MAX);
    assert_eq!(t.remaining_time(u64::MAX - 20 * MINUTE), deadline_frozen);

    // Underflowing decrease: work floors, deadline stays.
    let mut u = standard();
    u.start(0);
    u.decrease_duration(30 * MINUTE);
    assert_eq!(u.work_duration, MIN_WORK_MS);
    assert_eq!(u.remaining_time(0), 25 * MINUTE);
}

#[test]
fn duration_edits_apply_to_a_paused_deadline_too() {
    let mut t = standard();
    t.start(0);
    t.stop(10 * MINUTE);
    t.increase_duration(5 * MINUTE);
    // Frozen remaining span grows by exactly the increment.
    assert_eq!(t.remaining_time(10 * MINUTE), 20 * MINUTE);
    t.resume(10 * MINUTE);
    assert_eq!(t.remaining_time(10 * MINUTE), 20 * MINUTE);
}

#[test]
fn a_full_cycle_over_the_standard_day() {
    let mut t = standard();
    t.start(0);
    let mut alerts = 0;
    let mut now = 0;
    while now < 60 * MINUTE {
        if t.update(now) {
            alerts += 1;
        }
        now += MINUTE;
    }
    // 25m work -> 5m rest -> 25m work ends at minute 55 -> rest again.
    assert_eq!(alerts, 3);
    assert_eq!(t.current_phase(), Phase::Resting);
}
