use pico::messages::Diagnostics;
use pico::timer::Timer;

#[test]
fn new_timer_reports_its_period() {
    let timer = Timer::new(1_000_000, 5);
    assert_eq!(timer.duration, 1_000_000);
    assert_eq!(timer.start_time, 5);
    assert_eq!(timer.expected_time, None);
    assert_eq!(
        timer.diagnostics,
        Diagnostics { timestamp_us: 0, execution_us: 0, jitter_in_us: 0, period_in_us: 1_000_000 }
    );
}

#[test]
fn jitter_and_execution_time() {
    let mut timer = Timer::new(1_000, 0);
    timer.start(10_000);
    assert_eq!(timer.expected_time, Some(11_000));
    assert_eq!(timer.diagnostics.jitter_in_us, 0);
    let diagnostics = timer.stop(10_250);
    assert_eq!(
        diagnostics,
        Diagnostics { timestamp_us: 10_000, execution_us: 250, jitter_in_us: 0, period_in_us: 1_000 }
    );
    timer.start(11_040);
    assert_eq!(timer.diagnostics.jitter_in_us, 40);
    assert_eq!(timer.expected_time, Some(12_000));
    timer.start(11_990);
    assert_eq!(timer.diagnostics.jitter_in_us, 0);
    assert_eq!(timer.expected_time, Some(13_000));
    assert_eq!(timer.stop(11_000).execution_us, 0);
}

#[test]
fn due_time_that_overflows_is_forgotten() {
    let mut timer = Timer::new(10, 0);
    timer.start(u64::MAX - 5);
    assert_eq!(timer.expected_time, None);
    timer.start(100);
    assert_eq!(timer.diagnostics.jitter_in_us, 0);
    assert_eq!(timer.expected_time, Some(110));
}
