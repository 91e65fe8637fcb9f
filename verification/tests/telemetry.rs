use game_core::telemetry::{
    Delta, Report, Telemetry, NOMINAL_FRAME_TICKS, REPORT_THRESHOLD_TICKS, TICKS_PER_NANO,
    TICKS_PER_SECOND,
};

#[test]
fn units() {
    assert_eq!(TICKS_PER_SECOND, TICKS_PER_NANO * 1_000_000_000);
    assert_eq!(NOMINAL_FRAME_TICKS * 60, TICKS_PER_SECOND);
    assert_eq!(REPORT_THRESHOLD_TICKS, 2 * TICKS_PER_SECOND);
}

#[test]
fn delta_between_readings() {
    let delta = Delta::between(1_000, 17_000_000);
    assert_eq!(delta.nanos(), Some(16_999_000));
    assert!(!delta.is_nominal());
    assert_eq!(delta.tick_count(), 3 * 16_999_000);
}

#[test]
fn stalled_clock_gives_the_nominal_frame() {
    let delta = Delta::between(5_000, 5_000);
    assert_eq!(delta.nanos(), None);
    assert!(delta.is_nominal());
    assert_eq!(delta.tick_count(), 50_000_000);
    assert_eq!(delta, Delta::nominal());
}

#[test]
fn clock_running_backwards_gives_the_nominal_frame() {
    assert_eq!(Delta::between(5_000, 4_999), Delta::nominal());
    assert_eq!(Delta::between(u64::MAX, 0), Delta::nominal());
}

#[test]
fn one_nanosecond_is_measured() {
    assert_eq!(Delta::between(5_000, 5_001).nanos(), Some(1));
    assert_eq!(Delta::between(0, u64::MAX).nanos(), Some(u64::MAX));
    assert_eq!(Delta::between(0, u64::MAX).tick_count(), 3 * (u64::MAX as u128));
}

#[test]
fn delta_from_nanos() {
    assert_eq!(Delta::from_nanos(0), Delta::nominal());
    assert_eq!(Delta::from_nanos(250).nanos(), Some(250));
}

#[test]
fn accumulator_starts_empty() {
    let telemetry = Telemetry::new();
    assert_eq!(telemetry.frames(), 0);
    assert_eq!(telemetry.sim_ticks(), 0);
    assert_eq!(telemetry.cpu_nanos(), 0);
}

#[test]
fn frames_are_added_up() {
    let mut telemetry = Telemetry::new();
    assert_eq!(telemetry.record(Delta::from_nanos(1_000_000), 10, 510), None);
    assert_eq!(telemetry.record(Delta::nominal(), 600, 900), None);
    assert_eq!(telemetry.frames(), 2);
    assert_eq!(telemetry.sim_ticks(), 3_000_000 + 50_000_000);
    assert_eq!(telemetry.cpu_nanos(), 800);
}

#[test]
fn exactly_two_seconds_bring_no_report() {
    let mut telemetry = Telemetry::new();
    for _ in 0..4 {
        assert_eq!(telemetry.record(Delta::from_nanos(500_000_000), 0, 1_000), None);
    }
    assert_eq!(telemetry.frames(), 4);
    assert_eq!(telemetry.sim_ticks(), REPORT_THRESHOLD_TICKS);
}

#[test]
fn report_once_two_seconds_are_exceeded() {
    let mut telemetry = Telemetry::new();
    for _ in 0..3 {
        assert_eq!(telemetry.record(Delta::from_nanos(500_000_000), 0, 2_000_000), None);
    }
    let report = telemetry.record(Delta::from_nanos(500_000_001), 0, 2_000_000).unwrap();
    assert_eq!(
        report,
        Report { frames: 4, sim_ticks: 3 * 2_000_000_001, cpu_nanos: 8_000_000 }
    );
    assert_eq!(telemetry.frames(), 0);
    assert_eq!(telemetry.sim_ticks(), 0);
    assert_eq!(telemetry.cpu_nanos(), 0);
    assert_eq!(report.fps_milli(), Some(1_999));
    assert_eq!(report.frame_micros(), Some(500_000));
    assert_eq!(report.cpu_micros(), Some(2_000));
}

#[test]
fn report_after_nominal_frames() {
    let mut telemetry = Telemetry::new();
    for _ in 0..120 {
        assert_eq!(telemetry.record(Delta::nominal(), 100, 400), None);
    }
    let report = telemetry.record(Delta::nominal(), 100, 400).unwrap();
    assert_eq!(report.frames, 121);
    assert_eq!(report.sim_ticks, 121 * 50_000_000);
    assert_eq!(report.cpu_nanos, 121 * 300);
    assert_eq!(report.fps_milli(), Some(60_000));
    assert_eq!(report.frame_micros(), Some(16_666));
    assert_eq!(report.cpu_micros(), Some(0));
    assert_eq!(telemetry.frames(), 0);
}

#[test]
fn accumulator_starts_again_after_a_report() {
    let mut telemetry = Telemetry::new();
    assert!(telemetry.record(Delta::from_nanos(3_000_000_000), 0, 5).is_some());
    assert_eq!(telemetry.record(Delta::from_nanos(1_000), 0, 7), None);
    assert_eq!(telemetry.frames(), 1);
    assert_eq!(telemetry.sim_ticks(), 3_000);
    assert_eq!(telemetry.cpu_nanos(), 7);
}

#[test]
fn one_long_frame_brings_a_report() {
    let mut telemetry = Telemetry::new();
    let report = telemetry.record(Delta::from_nanos(u64::MAX), 0, u64::MAX).unwrap();
    assert_eq!(report.frames, 1);
    assert_eq!(report.sim_ticks, 3 * (u64::MAX as u128));
    assert_eq!(report.cpu_nanos, u64::MAX as i128);
    assert_eq!(report.fps_milli(), Some(0));
}

#[test]
fn update_time_may_be_negative() {
    let mut telemetry = Telemetry::new();
    assert_eq!(telemetry.record(Delta::nominal(), 1_000, 400), None);
    assert_eq!(telemetry.cpu_nanos(), -600);
    let report = telemetry.record(Delta::from_nanos(3_000_000_000), 9_000_000, 0).unwrap();
    assert_eq!(report.cpu_nanos, -9_000_600);
    assert_eq!(report.cpu_micros(), Some(-4_500));
}

#[test]
fn report_formulas() {
    let report = Report { frames: 150, sim_ticks: 3 * 2_500_000_000, cpu_nanos: 450_000_000 };
    assert_eq!(report.fps_milli(), Some(60_000));
    assert_eq!(report.frame_micros(), Some(16_666));
    assert_eq!(report.cpu_micros(), Some(3_000));
}

#[test]
fn report_formulas_round_towards_zero() {
    let report = Report { frames: 7, sim_ticks: 3 * 2_000_000_003, cpu_nanos: -7_999 };
    assert_eq!(report.fps_milli(), Some(3_499));
    assert_eq!(report.frame_micros(), Some(285_714));
    assert_eq!(report.cpu_micros(), Some(-1));
}

#[test]
fn report_without_time_or_frames() {
    let report = Report { frames: 0, sim_ticks: 0, cpu_nanos: 5 };
    assert_eq!(report.fps_milli(), None);
    assert_eq!(report.frame_micros(), None);
    assert_eq!(report.cpu_micros(), None);
}

#[test]
fn frames_per_second_that_do_not_fit() {
    let report = Report { frames: u64::MAX, sim_ticks: 1, cpu_nanos: 0 };
    assert_eq!(report.fps_milli(), None);
}
