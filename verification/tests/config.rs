use fps_timer::Log;
use fps_timer::Timer;

#[test]
fn default_values() {
    let t: Timer = Timer::default();
    assert_eq!(t.previous, 0);
    assert_eq!(t.previous_log, 0);
    assert_eq!(t.delta_time, 16_666_667);
    assert_eq!(t.target, 16_666_667);
    assert_eq!(t.log_interval, 100_000_000);
    assert_eq!(t.log_target, 100_000_000);
    assert_eq!(t.framecount, 0);
    assert_eq!(t.prev_framecount, 0);
    assert_eq!(t.max_delay_frames, 2);
    assert!(t.high_precision);
}

#[test]
fn frame_time_sets_period_and_next_deadline() {
    let t: Timer = Timer::default().frame_time(10_000_000);
    assert_eq!(t.delta_time, 10_000_000);
    assert_eq!(t.target, 10_000_000);
}

#[test]
fn frame_time_rebases_on_last_frame() {
    let mut t: Timer = Timer::default();
    t.plan_frame(20_000_000);
    t.finish_frame(20_000_000);
    let t: Timer = t.frame_time(5_000_000);
    assert_eq!(t.target, 25_000_000);
}

#[test]
fn log_interval_rearms_window() {
    let t: Timer = Timer::default().log_interval(50_000_000);
    assert_eq!(t.log_interval, 50_000_000);
    assert_eq!(t.log_target, 50_000_000);
}

#[test]
fn log_interval_rebases_on_last_frame() {
    let mut t: Timer = Timer::default();
    t.plan_frame(20_000_000);
    t.finish_frame(20_000_000);
    let t: Timer = t.log_interval(50_000_000);
    assert_eq!(t.log_target, 70_000_000);
}

#[test]
fn high_precision_toggle() {
    let t: Timer = Timer::default().high_precision(false);
    assert!(!t.high_precision);
    let t: Timer = t.high_precision(true);
    assert!(t.high_precision);
}

#[test]
fn slack_is_max_delay_periods() {
    let t: Timer = Timer::default();
    assert_eq!(t.slack(), 33_333_334);
    let t: Timer = t.frame_time(10_000_000);
    assert_eq!(t.slack(), 20_000_000);
}

#[test]
fn well_formed_checks_bounds() {
    let mut t: Timer = Timer::default();
    assert!(t.well_formed());
    t.target = u64::MAX;
    assert!(!t.well_formed());
}

#[test]
fn log_snapshot_accessor() {
    let snapshot: Log = Log { delta_avg: 5_000_000 };
    assert_eq!(snapshot.delta_time_avg(), 5_000_000);
}
