use otel_california::shutdown::{Phase, ShutdownCoordinator, DEFAULT_SHUTDOWN_TIMEOUT_MS};

#[test]
fn flush_in_time_reports_flushed() {
    let mut c = ShutdownCoordinator::new(DEFAULT_SHUTDOWN_TIMEOUT_MS);
    assert_eq!(c.phase, Phase::Running);
    c.on_signal(10_000);
    assert_eq!(c.phase, Phase::SignalReceived);
    assert_eq!(c.signal_at_ms, 10_000);
    c.begin_drain();
    assert_eq!(c.phase, Phase::Draining);
    let report_error = c.on_wait_result(true, 11_500);
    assert!(!report_error);
    assert_eq!(c.phase, Phase::Flushed);
    assert_eq!(c.ended_at_ms, 11_500);
    c.terminate();
    assert_eq!(c.phase, Phase::Terminated);
    assert!(c.ended_at_ms <= 10_000 + DEFAULT_SHUTDOWN_TIMEOUT_MS);
}

#[test]
fn flush_at_the_deadline_still_counts_as_flushed() {
    let mut c = ShutdownCoordinator::new(2_000);
    c.on_signal(500);
    c.begin_drain();
    let report_error = c.on_wait_result(true, 2_500);
    assert!(!report_error);
    assert_eq!(c.phase, Phase::Flushed);
    assert_eq!(c.ended_at_ms, 2_500);
    c.terminate();
    assert_eq!(c.phase, Phase::Terminated);
}

#[test]
fn stuck_flush_times_out_and_still_terminates() {
    let mut c = ShutdownCoordinator::new(2_000);
    c.on_signal(1_000);
    c.begin_drain();
    let report_error = c.on_wait_result(false, 3_200);
    assert!(report_error);
    assert_eq!(c.phase, Phase::TimedOut);
    assert_eq!(c.ended_at_ms, 3_000);
    c.terminate();
    assert_eq!(c.phase, Phase::Terminated);
    assert!(c.ended_at_ms <= 1_000 + 2_000);
}

#[test]
fn zero_timeout_gives_up_at_the_signal() {
    let mut c = ShutdownCoordinator::new(0);
    c.on_signal(42);
    c.begin_drain();
    let report_error = c.on_wait_result(false, 42);
    assert!(report_error);
    assert_eq!(c.phase, Phase::TimedOut);
    assert_eq!(c.ended_at_ms, 42);
    c.terminate();
    assert_eq!(c.phase, Phase::Terminated);
}
