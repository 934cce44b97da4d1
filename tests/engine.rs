use inquisitor::cancel::{on_interrupt, InterruptAction, SECOND_INTERRUPT_EXIT_CODE};
use inquisitor::classify::{body_needed, classify};
use inquisitor::error::InquisitorError;
use inquisitor::metrics::MAX_TRACKED_LATENCY_US;
use inquisitor::pattern::FailurePattern;
use inquisitor::plan::prepare;
use inquisitor::stop::{should_continue, worker_may_proceed};
use inquisitor::worker::{needs_body, settle, Notice, Settings};
use inquisitor::{Config, Metrics, Reply, Verdict};

fn settings(print_response: bool, hide_errors: bool, pattern: Option<&str>) -> Settings {
    Settings {
        print_response,
        hide_errors,
        failure_pattern: pattern.map(|p| FailurePattern::new(p).unwrap()),
    }
}

#[test]
fn classification_cases() {
    assert_eq!(classify(Reply::Failed, None), Verdict::Fail);
    assert_eq!(classify(Reply::Status(500), None), Verdict::Fail);
    assert_eq!(classify(Reply::Status(404), Some(false)), Verdict::Fail);
    assert_eq!(classify(Reply::Status(199), None), Verdict::Fail);
    assert_eq!(classify(Reply::Status(300), None), Verdict::Fail);
    assert_eq!(classify(Reply::Status(200), None), Verdict::Pass);
    assert_eq!(classify(Reply::Status(299), None), Verdict::Pass);
    assert_eq!(classify(Reply::Status(204), Some(false)), Verdict::Pass);
    assert_eq!(classify(Reply::Status(200), Some(true)), Verdict::Fail);
}

#[test]
fn body_is_read_only_when_needed() {
    assert!(!body_needed(Reply::Status(200), false, false));
    assert!(body_needed(Reply::Status(200), true, false));
    assert!(body_needed(Reply::Status(200), false, true));
    assert!(!body_needed(Reply::Status(500), true, true));
    assert!(!body_needed(Reply::Failed, true, true));
    assert!(needs_body(&settings(false, false, Some("error")), Reply::Status(200)));
    assert!(!needs_body(&settings(false, false, None), Reply::Status(200)));
}

#[test]
fn pattern_compiles_and_matches() {
    let p = FailurePattern::new("err(or)?").unwrap();
    assert_eq!(p.as_str(), "err(or)?");
    assert!(p.is_match("internal error occurred"));
    assert!(!p.is_match("all good"));
    assert_eq!(FailurePattern::new("(").err(), Some(InquisitorError::InvalidFailurePattern));
}

#[test]
fn success_target_has_no_errors() {
    let s = settings(false, false, None);
    let mut m = Metrics::new().unwrap();
    for i in 0..5u64 {
        assert_eq!(settle(&s, &mut m, Reply::Status(200), "", 100 + i), Ok(Notice::Quiet));
    }
    assert_eq!(m.errors(), 0);
    assert_eq!(m.passes(), 5);
    assert_eq!(m.total(), 5);
}

#[test]
fn failing_target_has_no_passes() {
    let s = settings(false, false, Some("error"));
    let mut m = Metrics::new().unwrap();
    for _ in 0..4 {
        assert_eq!(settle(&s, &mut m, Reply::Status(500), "", 1000), Ok(Notice::BadStatus(500)));
    }
    assert_eq!(m.passes(), 0);
    assert_eq!(m.errors(), 4);
    assert_eq!(m.total(), 4);
}

#[test]
fn body_matching_failure_pattern_fails() {
    let s = settings(false, false, Some("error"));
    let mut m = Metrics::new().unwrap();
    let n = settle(&s, &mut m, Reply::Status(200), "internal error occurred", 10);
    assert_eq!(n, Ok(Notice::BodyIndicatesError));
    assert_eq!(m.errors(), 1);
    assert_eq!(m.passes(), 0);
    let n = settle(&s, &mut m, Reply::Status(200), "I was hit.", 10);
    assert_eq!(n, Ok(Notice::Quiet));
    assert_eq!(m.passes(), 1);
    assert_eq!(m.errors(), 1);
}

#[test]
fn notices_follow_flags() {
    let mut m = Metrics::new().unwrap();
    let printing = settings(true, false, None);
    assert_eq!(settle(&printing, &mut m, Reply::Status(200), "I was hit.", 5), Ok(Notice::ShowBody));
    assert_eq!(settle(&printing, &mut m, Reply::Failed, "", 5), Ok(Notice::RequestFailed));
    let hidden = settings(true, true, Some("error"));
    assert_eq!(settle(&hidden, &mut m, Reply::Failed, "", 5), Ok(Notice::Quiet));
    assert_eq!(settle(&hidden, &mut m, Reply::Status(503), "", 5), Ok(Notice::Quiet));
    assert_eq!(settle(&hidden, &mut m, Reply::Status(200), "error", 5), Ok(Notice::Quiet));
    assert_eq!(settle(&hidden, &mut m, Reply::Status(200), "fine", 5), Ok(Notice::ShowBody));
    assert_eq!(m.passes(), 2);
    assert_eq!(m.errors(), 4);
}

#[test]
fn out_of_range_latency_records_nothing() {
    let s = settings(false, false, None);
    let mut m = Metrics::new().unwrap();
    let r = settle(&s, &mut m, Reply::Status(200), "", 2 * MAX_TRACKED_LATENCY_US + 1);
    assert_eq!(r, Err(InquisitorError::LatencyOutOfRange));
    assert_eq!(m.total(), 0);
    assert_eq!(m.latencies().histogram.len(), 0);
    let r = settle(&s, &mut m, Reply::Status(200), "", MAX_TRACKED_LATENCY_US + 1);
    assert_eq!(r, Err(InquisitorError::LatencyOutOfRange));
    assert_eq!(m.total(), 0);
    assert_eq!(settle(&s, &mut m, Reply::Status(200), "", MAX_TRACKED_LATENCY_US), Ok(Notice::Quiet));
    assert_eq!(m.total(), 1);
}

#[test]
fn latency_bounds_enclose_samples() {
    let s = settings(false, false, None);
    let mut m = Metrics::new().unwrap();
    let samples = [10u64, 1000, 123_456, 7, 99_999_999];
    for &v in &samples {
        settle(&s, &mut m, Reply::Status(200), "", v).unwrap();
    }
    let (lo, hi) = m.latency_bounds();
    for &v in &samples {
        assert!(lo <= v && v <= hi);
    }
    assert_eq!(lo, 7);
    assert!(hi <= 99_999_999 + 99_999_999 / 1024);
    let h = &m.latencies().histogram;
    let mean = h.mean();
    assert!(lo as f64 <= mean && mean <= hi as f64);
}

#[test]
fn quantiles_are_non_decreasing() {
    let s = settings(false, false, None);
    let mut m = Metrics::new().unwrap();
    for v in 1..=2000u64 {
        settle(&s, &mut m, Reply::Status(200), "", v * 37 % 5000).unwrap();
    }
    let h = &m.latencies().histogram;
    let qs: Vec<u64> = [0.5, 0.75, 0.9, 0.95, 0.99, 0.999].iter().map(|&q| h.value_at_quantile(q)).collect();
    for w in qs.windows(2) {
        assert!(w[0] <= w[1]);
    }
}

#[test]
fn stop_condition() {
    assert!(should_continue(0, 0, (1, u64::MAX)));
    assert!(!should_continue(1, 0, (1, u64::MAX)));
    assert!(should_continue(1_000_000, 999_999, (usize::MAX, 1_000_000)));
    assert!(!should_continue(0, 1_000_000, (usize::MAX, 1_000_000)));
    assert!(!should_continue(5, 10, (5, 100)));
}

#[test]
fn worker_stops_when_cancelled_or_bound_reached() {
    let s = settings(false, false, None);
    let mut m = Metrics::new().unwrap();
    assert!(worker_may_proceed(&m, 0, (1, u64::MAX), false));
    assert!(!worker_may_proceed(&m, 0, (1, u64::MAX), true));
    settle(&s, &mut m, Reply::Status(200), "", 1).unwrap();
    assert!(!worker_may_proceed(&m, 0, (1, u64::MAX), false));
    assert!(worker_may_proceed(&m, 0, (2, u64::MAX), false));
}

#[test]
fn interrupts() {
    assert_eq!(on_interrupt(false), InterruptAction::Drain);
    assert_eq!(on_interrupt(true), InterruptAction::Exit(130));
    assert_eq!(SECOND_INTERRUPT_EXIT_CODE, 130);
}

#[test]
fn prepare_builds_plan() {
    let c = Config {
        iterations: Some(3),
        header: vec!["A:1".to_string(), "B:2".to_string(), "A:3".to_string()],
        failed_body: Some("error".to_string()),
        print_response: true,
        ..Config::default()
    };
    let p = prepare(&c).unwrap();
    assert_eq!((p.max_iterations, p.max_duration_us), (3, u64::MAX));
    assert_eq!(p.headers.len(), 2);
    assert!(p.headers.contains(&("A".to_string(), "3".to_string())));
    assert!(p.settings.print_response);
    assert!(!p.settings.hide_errors);
    assert_eq!(p.settings.failure_pattern.as_ref().map(|f| f.as_str()), Some("error"));
    assert_eq!(p.metrics.total(), 0);
}

#[test]
fn metrics_start_empty() {
    let m = Metrics::new().unwrap();
    assert_eq!((m.passes(), m.errors(), m.total()), (0, 0, 0));
    assert_eq!(m.latencies().histogram.high(), MAX_TRACKED_LATENCY_US);
    assert_eq!(m.latencies().histogram.sigfig(), 3);
}

#[test]
fn prepare_rejects_bad_pattern() {
    let c = Config { failed_body: Some("[unclosed".to_string()), ..Config::default() };
    assert_eq!(prepare(&c).err(), Some(InquisitorError::InvalidFailurePattern));
}

#[test]
fn single_request_run_prints_body() {
    let c = Config {
        url: "http://localhost/hitme".to_string(),
        connections: 1,
        iterations: Some(1),
        print_response: true,
        ..Config::default()
    };
    let mut p = prepare(&c).unwrap();
    let bound = (p.max_iterations, p.max_duration_us);
    assert!(worker_may_proceed(&p.metrics, 0, bound, false));
    assert!(needs_body(&p.settings, Reply::Status(200)));
    let n = settle(&p.settings, &mut p.metrics, Reply::Status(200), "I was hit.", 250);
    assert_eq!(n, Ok(Notice::ShowBody));
    assert!(!worker_may_proceed(&p.metrics, 1, bound, false));
    assert_eq!((p.metrics.errors(), p.metrics.total()), (0, 1));
}
