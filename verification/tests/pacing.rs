use fps_timer::busy_wait_until;
use fps_timer::Timer;
use std::sync::atomic::AtomicU64;
use std::sync::atomic::Ordering;

// One period of the default sixty-per-second configuration, in nanoseconds.
const PERIOD: u64 = 16_666_667;

// Drives one pacing call on chosen timestamps: schedules at `arrival`, and if
// a wait is asked for, completes at the wait's goal (a perfectly accurate
// wait); otherwise completes at `arrival` itself. Returns the frame time.
fn paced_call(t: &mut Timer, arrival: u64) -> u64 {
    let resumed: u64 = match t.plan_frame(arrival) {
        Some(goal) => goal,
        None => arrival,
    };
    t.finish_frame(resumed)
}

#[test]
fn late_within_slack_keeps_schedule() {
    // A call arriving 20ms past its deadline is within the ~33.3ms slack:
    // the schedule is kept, not reset to the arrival time.
    let mut t: Timer = Timer::default();
    let wait: Option<u64> = t.plan_frame(PERIOD + 20_000_000);
    assert!(wait.is_none());
    assert_eq!(t.target, 2 * PERIOD);
    t.finish_frame(PERIOD + 20_000_000);
}

#[test]
fn late_beyond_slack_resets_schedule() {
    // A call arriving 50ms past its deadline exceeds the slack: the schedule
    // resynchronizes to the arrival, with the next deadline one period later.
    let mut t: Timer = Timer::default();
    let arrival: u64 = PERIOD + 50_000_000;
    let wait: Option<u64> = t.plan_frame(arrival);
    assert!(wait.is_none());
    assert_eq!(t.target, arrival + PERIOD);
    t.finish_frame(arrival);
}

#[test]
fn catch_up_absorbs_backlog_and_restores_cadence() {
    let mut t: Timer = Timer::default();
    // On time.
    let dt1: u64 = paced_call(&mut t, PERIOD);
    assert_eq!(dt1, PERIOD);
    // Delayed 20ms, within slack: a long frame, no reset, no blocking.
    let dt2: u64 = paced_call(&mut t, PERIOD + 36_666_667);
    assert_eq!(dt2, 36_666_667);
    // The loop then runs fast: short frames while the backlog drains.
    let dt3: u64 = paced_call(&mut t, 54_333_334);
    assert_eq!(dt3, 1_000_000);
    assert!(dt3 < PERIOD);
    // Backlog absorbed: the next call waits again, back on the original
    // cadence: the fifth deadline is exactly five periods from the start.
    let wait: Option<u64> = t.plan_frame(55_333_334);
    assert_eq!(wait, Some(66_666_668));
    t.finish_frame(66_666_668);
    assert_eq!(t.target, 5 * PERIOD);
}

#[test]
fn uncapped_period_never_waits() {
    let mut t: Timer = Timer::default().frame_time(0);
    assert_eq!(t.target, 0);
    let wait: Option<u64> = t.plan_frame(12_345);
    assert!(wait.is_none());
    assert_eq!(t.target, 0);
    let dt: u64 = t.finish_frame(12_345);
    assert_eq!(dt, 12_345);
    // A reading earlier than the previous one reports zero elapsed time.
    let wait2: Option<u64> = t.plan_frame(99);
    assert!(wait2.is_none());
    let dt2: u64 = t.finish_frame(99);
    assert_eq!(dt2, 0);
    assert_eq!(t.framecount, 2);
}

#[test]
fn uncapped_frame_returns_at_once() {
    let mut t: Timer = Timer::default().frame_time(0);
    let dt: u64 = t.frame(|_d: u64| {});
    assert_eq!(t.framecount, 1);
    assert_eq!(t.target, 0);
    // No artificial minimum: the call reports clock sampling alone, well
    // under one default period even on a heavily loaded machine.
    assert!(dt < 1_000_000_000);
}

#[test]
fn log_none_before_first_interval() {
    let mut t: Timer = Timer::default();
    assert!(t.log().is_none());
    t.plan_frame(PERIOD);
    t.finish_frame(PERIOD);
    assert!(t.log().is_none());
}

#[test]
fn log_snapshot_per_interval_boundary() {
    // Pacing exactly on the default cadence, a snapshot falls out roughly
    // every sixth call with a 100ms logging interval, and reports the exact
    // average frame duration.
    let mut t: Timer = Timer::default();
    let mut snapshots: u64 = 0;
    for i in 1..=12u64 {
        paced_call(&mut t, i * PERIOD);
        match t.log() {
            Some(snapshot) => {
                snapshots += 1;
                assert!(i == 6 || i == 12);
                assert_eq!(snapshot.delta_time_avg(), PERIOD);
                assert!(t.framecount - t.prev_framecount == 0);
            },
            None => {
                assert!(i != 6 && i != 12);
            },
        }
    }
    assert_eq!(snapshots, 2);
    assert_eq!(t.prev_framecount, 12);
}

#[test]
fn log_window_covers_at_least_one_frame() {
    let mut t: Timer = Timer::default().frame_time(0).log_interval(1);
    // Nothing to report before any pacing call has run.
    assert!(t.log().is_none());
    paced_call(&mut t, 10);
    let snapshot = t.log().expect("one frame elapsed past the interval");
    assert_eq!(snapshot.delta_time_avg(), 10);
    // The very next call finds the window freshly re-armed.
    assert!(t.log().is_none());
}

#[test]
fn frame_paces_real_clock() {
    // Three high-precision frames at 5ms: the timer must block until each
    // deadline, so at least 15ms of clock have passed afterwards, and the
    // reported frame times account for all of it.
    let mut t: Timer = Timer::default().frame_time(5_000_000);
    let mut total: u64 = 0;
    for _ in 0..3 {
        total += t.frame(|_d: u64| {});
    }
    assert_eq!(t.framecount, 3);
    assert!(t.previous >= 15_000_000);
    assert_eq!(total, t.previous);
}

#[test]
fn coarse_frame_paces_real_clock() {
    let mut t: Timer = Timer::default().frame_time(3_000_000).high_precision(false);
    let dt: u64 = t.frame(|_d: u64| {});
    assert!(dt >= 3_000_000);
    assert!(t.previous >= 3_000_000);
}

#[test]
fn busy_wait_reaches_goal() {
    let t: Timer = Timer::default();
    let resumed: u64 = busy_wait_until(&t.epoch, 2_000_000);
    assert!(resumed >= 2_000_000);
}

#[test]
fn suspend_receives_most_of_the_gap() {
    // With a 20ms period the first frame's wait hands all but the spin
    // margin of the gap to the suspend primitive.
    let mut t: Timer = Timer::default().frame_time(20_000_000);
    let asked = AtomicU64::new(0);
    t.frame(|d: u64| {
        asked.store(d, Ordering::SeqCst);
    });
    let d: u64 = asked.load(Ordering::SeqCst);
    assert!(d > 1_000_000);
    assert!(d < 20_000_000);
}
