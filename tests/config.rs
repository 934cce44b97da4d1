use inquisitor::config::{DEFAULT_DURATION_SECS, MAX_CONNS};
use inquisitor::error::InquisitorError;
use inquisitor::time::parse_duration;
use inquisitor::{Config, Method};

#[test]
fn method_defaults_to_get() {
    assert_eq!(Method::default(), Method::Get);
}

#[test]
fn config_default_is_empty() {
    let c = Config::default();
    assert_eq!(c.url, "");
    assert_eq!(c.iterations, None);
    assert_eq!(c.connections, 0);
    assert!(!c.print_response);
    assert_eq!(c.failed_body, None);
    assert!(!c.insecure);
    assert_eq!(c.method, Method::Get);
    assert_eq!(c.request_body, None);
    assert!(c.header.is_empty());
    assert!(!c.hide_errors);
    assert_eq!(c.duration, None);
    assert_eq!(c.ca_cert, None);
    assert_eq!(MAX_CONNS, 12);
}

#[test]
fn bound_defaults_to_twenty_seconds() {
    let c = Config::default();
    assert_eq!(c.iterations_and_duration(), (usize::MAX, 20_000_000));
    assert_eq!(DEFAULT_DURATION_SECS, 20);
}

#[test]
fn bound_with_iterations_only() {
    let c = Config { iterations: Some(1), ..Config::default() };
    assert_eq!(c.iterations_and_duration(), (1, u64::MAX));
}

#[test]
fn bound_with_duration_only() {
    let c = Config { duration: Some(1_000_000), ..Config::default() };
    assert_eq!(c.iterations_and_duration(), (usize::MAX, 1_000_000));
}

#[test]
fn bound_with_both() {
    let c = Config { iterations: Some(100), duration: Some(90_000_000), ..Config::default() };
    assert_eq!(c.iterations_and_duration(), (100, 90_000_000));
}

#[test]
fn bound_from_parsed_duration() {
    let d = parse_duration("1s").unwrap();
    let c = Config { duration: Some(d), ..Config::default() };
    assert_eq!(c.iterations_and_duration(), (usize::MAX, 1_000_000));
}

#[test]
fn duration_parse_error_has_empty_message() {
    assert_eq!(InquisitorError::DurationParseError.to_string(), "");
    assert_eq!(InquisitorError::InvalidFailurePattern.to_string(), "invalid failure-body pattern");
    assert_eq!(
        InquisitorError::HistogramCreation.to_string(),
        "failed to create histogram for response times"
    );
    assert_eq!(InquisitorError::LatencyOutOfRange.to_string(), "time out of bounds");
    assert_eq!(InquisitorError::CounterOverflow.to_string(), "request counter overflow");
}
