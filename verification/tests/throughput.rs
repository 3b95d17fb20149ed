use std::time::Duration;
use std::time::SystemTime;
use stress::throughput::Report;
use stress::throughput::ThroughputState;
use stress::throughput::WINDOW_MILLIS;

fn at(secs: u64) -> SystemTime {
    SystemTime::UNIX_EPOCH + Duration::from_secs(secs)
}

fn filled(responses: u64, start: SystemTime) -> ThroughputState {
    let mut state = ThroughputState::new(start);
    for _ in 0..responses {
        assert_eq!(state.record(0, start), None);
    }
    state
}

#[test]
fn a_new_tracker_is_empty() {
    let state = ThroughputState::new(at(7));
    assert_eq!(state.responses(), 0);
    assert_eq!(state.window_start(), at(7));
}

#[test]
fn the_window_is_one_second() {
    assert_eq!(WINDOW_MILLIS, 1_000);
}

#[test]
fn a_completion_inside_the_window_is_counted_and_not_reported() {
    let mut state = ThroughputState::new(at(1));
    assert_eq!(state.record(999, at(2)), None);
    assert_eq!(state.responses(), 1);
    assert_eq!(state.window_start(), at(1));
}

#[test]
fn exactly_one_second_does_not_close_the_window() {
    let mut state = filled(3, at(1));
    assert_eq!(state.record(1_000, at(2)), None);
    assert_eq!(state.responses(), 4);
    assert_eq!(state.window_start(), at(1));
}

#[test]
fn window_reset_after_1001_millis_with_five_responses() {
    let mut state = filled(4, at(1));
    let report = state.record(1_001, at(3));
    assert_eq!(report, Some(Report { responses: 5, elapsed_millis: 1_001, rate: 4 }));
    assert_eq!(state.responses(), 0);
    assert_eq!(state.window_start(), at(3));
}

#[test]
fn window_reset_when_the_sixth_response_arrives_after_1001_millis() {
    let mut state = filled(5, at(1));
    let report = state.record(1_001, at(3));
    assert_eq!(report, Some(Report { responses: 6, elapsed_millis: 1_001, rate: 5 }));
    assert_eq!(state.responses(), 0);
    assert_eq!(state.window_start(), at(3));
}

#[test]
fn a_completion_right_after_a_reset_belongs_to_the_new_window() {
    let mut state = filled(4, at(1));
    assert!(state.record(1_001, at(3)).is_some());
    assert_eq!(state.record(0, at(4)), None);
    assert_eq!(state.responses(), 1);
    assert_eq!(state.window_start(), at(3));
}

#[test]
fn the_rate_is_rounded_down() {
    let mut state = filled(2, at(0));
    let report = state.record(2_000, at(2));
    assert_eq!(report, Some(Report { responses: 3, elapsed_millis: 2_000, rate: 1 }));
    let mut state = filled(0, at(0));
    let report = state.record(1_001, at(2));
    assert_eq!(report, Some(Report { responses: 1, elapsed_millis: 1_001, rate: 0 }));
    let mut state = filled(2_001, at(0));
    let report = state.record(1_001, at(2));
    assert_eq!(report, Some(Report { responses: 2_002, elapsed_millis: 1_001, rate: 2_000 }));
}

#[test]
fn the_rate_does_not_overflow_near_the_largest_elapsed_time() {
    let mut state = filled(9, at(0));
    let report = state.record(u64::MAX, at(2));
    assert_eq!(report, Some(Report { responses: 10, elapsed_millis: u64::MAX, rate: 0 }));
}

#[test]
fn the_report_line_names_the_rate() {
    let report = Report { responses: 5, elapsed_millis: 1_001, rate: 4 };
    assert_eq!(report.line(), "4 responses per second");
    let report = Report { responses: 0, elapsed_millis: 0, rate: 12_345 };
    assert_eq!(report.line(), "12345 responses per second");
    let report = Report { responses: 0, elapsed_millis: 0, rate: 0 };
    assert_eq!(report.line(), "0 responses per second");
}

#[test]
fn no_completion_is_lost_over_many_windows() {
    let workers: u64 = 4;
    let each: u64 = 25;
    let mut state = ThroughputState::new(at(0));
    let mut reported: u64 = 0;
    let mut reports: u64 = 0;
    for k in 0..each {
        for m in 0..workers {
            let elapsed = if (k * workers + m) % 7 == 6 { 1_500 } else { 200 };
            if let Some(report) = state.record(elapsed, at(k + 1)) {
                reported += report.responses;
                reports += 1;
            }
        }
    }
    assert_eq!(reports, 14);
    assert_eq!(reported + state.responses(), workers * each);
}

#[test]
fn a_window_that_started_long_ago_closes_on_the_clock() {
    let start = SystemTime::now() - Duration::from_secs(2);
    let mut state = ThroughputState::new(start);
    let report = state.record_completion().expect("the window is two seconds old");
    assert_eq!(report.responses, 1);
    assert!(report.elapsed_millis >= 2_000);
    assert_eq!(report.rate, 1_000 / report.elapsed_millis);
    assert_eq!(state.responses(), 0);
    assert!(state.window_start() > start);
}

#[test]
fn a_fresh_window_stays_open_on_the_clock() {
    let mut state = ThroughputState::start();
    assert_eq!(state.responses(), 0);
    let start = state.window_start();
    assert_eq!(state.record_completion(), None);
    assert_eq!(state.record_completion(), None);
    assert_eq!(state.responses(), 2);
    assert_eq!(state.window_start(), start);
}

#[test]
fn a_window_that_starts_in_the_future_counts_no_time() {
    let start = SystemTime::now() + Duration::from_secs(3_600);
    let mut state = ThroughputState::new(start);
    assert_eq!(state.record_completion(), None);
    assert_eq!(state.responses(), 1);
    assert_eq!(state.window_start(), start);
}
