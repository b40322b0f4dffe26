use webpulse::models::{HeartbeatStatus, HistoryStatus, Timestamp};
use webpulse::services::checker::{classify, is_success, status_line, CheckResult, ProbeOutcome};
use webpulse::services::heartbeat_checker::{
    current_heartbeat_status, heartbeat_status, status_for_elapsed,
};
use webpulse::services::http_checker::HttpChecker;
use webpulse::services::scheduler::probe_timeout_secs;

#[test]
fn success_statuses() {
    assert!(is_success(200));
    assert!(is_success(204));
    assert!(is_success(299));
    assert!(!is_success(199));
    assert!(!is_success(300));
    assert!(!is_success(404));
}

#[test]
fn status_lines_carry_reason_phrases() {
    assert_eq!(status_line(404), "404 Not Found");
    assert_eq!(status_line(503), "503 Service Unavailable");
    assert_eq!(status_line(200), "200 OK");
    assert_eq!(status_line(599), "599 <unknown status code>");
}

#[test]
fn successful_response_is_up() {
    assert_eq!(
        classify(ProbeOutcome::Responded { status: 200 }, 35),
        CheckResult { status: HistoryStatus::Up, response_time_ms: Some(35), error_message: None }
    );
}

#[test]
fn failing_response_is_down_with_status() {
    assert_eq!(
        classify(ProbeOutcome::Responded { status: 500 }, 12),
        CheckResult {
            status: HistoryStatus::Down,
            response_time_ms: Some(12),
            error_message: Some("HTTP 500 Internal Server Error".to_string()),
        }
    );
    assert_eq!(
        classify(ProbeOutcome::Responded { status: 301 }, 1).error_message,
        Some("HTTP 301 Moved Permanently".to_string())
    );
}

#[test]
fn request_error_is_down_with_message() {
    assert_eq!(
        classify(ProbeOutcome::Failed { message: "connection refused".to_string() }, 3000),
        CheckResult {
            status: HistoryStatus::Down,
            response_time_ms: Some(3000),
            error_message: Some("connection refused".to_string()),
        }
    );
}

#[test]
fn up_exactly_when_no_error() {
    for outcome in [
        ProbeOutcome::Responded { status: 200 },
        ProbeOutcome::Responded { status: 418 },
        ProbeOutcome::Failed { message: "timeout".to_string() },
    ] {
        let result = classify(outcome, 5);
        assert_eq!(result.status == HistoryStatus::Up, result.error_message.is_none());
        assert!(result.response_time_ms.is_some());
    }
}

#[test]
fn heartbeat_status_by_elapsed_time() {
    assert_eq!(status_for_elapsed(0, 300, 60), HeartbeatStatus::Healthy);
    assert_eq!(status_for_elapsed(300, 300, 60), HeartbeatStatus::Healthy);
    assert_eq!(status_for_elapsed(301, 300, 60), HeartbeatStatus::Late);
    assert_eq!(status_for_elapsed(360, 300, 60), HeartbeatStatus::Late);
    assert_eq!(status_for_elapsed(361, 300, 60), HeartbeatStatus::Down);
    assert_eq!(status_for_elapsed(-5, 300, 60), HeartbeatStatus::Healthy);
    assert_eq!(status_for_elapsed(5, 10, -20), HeartbeatStatus::Down);
}

#[test]
fn heartbeat_status_worsens_with_time() {
    let severity = |s: HeartbeatStatus| match s {
        HeartbeatStatus::Healthy => 0,
        HeartbeatStatus::Late => 1,
        HeartbeatStatus::Down => 2,
        HeartbeatStatus::Unknown => -1,
    };
    let mut previous = severity(status_for_elapsed(-10, 30, 15));
    for elapsed in -10..100 {
        let current = severity(status_for_elapsed(elapsed, 30, 15));
        assert!(previous <= current);
        previous = current;
    }
}

#[test]
fn heartbeat_status_at_a_moment() {
    let ping = Timestamp::from_unix(1_000, 0).unwrap();
    let at = |secs: i64, nanos: u32| Timestamp::from_unix(secs, nanos).unwrap();
    assert_eq!(heartbeat_status(300, 60, None, at(5_000, 0)), HeartbeatStatus::Unknown);
    assert_eq!(heartbeat_status(300, 60, Some(ping), at(1_300, 999_999_999)), HeartbeatStatus::Healthy);
    assert_eq!(heartbeat_status(300, 60, Some(ping), at(1_301, 0)), HeartbeatStatus::Late);
    assert_eq!(heartbeat_status(300, 60, Some(ping), at(1_361, 0)), HeartbeatStatus::Down);
}

#[test]
fn heartbeat_status_now() {
    assert_eq!(current_heartbeat_status(300, 60, None), HeartbeatStatus::Unknown);
    let long_ago = Timestamp::from_unix(0, 0).unwrap();
    assert_eq!(current_heartbeat_status(300, 60, Some(long_ago)), HeartbeatStatus::Down);
    let now = Timestamp::now();
    assert_eq!(current_heartbeat_status(300, 60, Some(now)), HeartbeatStatus::Healthy);
}

#[test]
fn http_checker_keeps_its_target() {
    let checker = HttpChecker::new(9, "Site".to_string(), "https://example.com".to_string(), 15);
    assert_eq!(checker.id(), 9);
    assert_eq!(checker.name(), "Site");
    assert_eq!(checker.url(), "https://example.com");
    assert_eq!(checker.timeout_secs(), 15);
}

#[test]
fn probe_timeouts_are_at_least_one_second() {
    assert_eq!(probe_timeout_secs(30), 30);
    assert_eq!(probe_timeout_secs(1), 1);
    assert_eq!(probe_timeout_secs(0), 1);
    assert_eq!(probe_timeout_secs(-7), 1);
    assert_eq!(probe_timeout_secs(i64::MAX), i64::MAX as u64);
}
