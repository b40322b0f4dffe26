use webpulse::config::MonitorConfig;
use webpulse::error::AppError;
use webpulse::models::{CreateMonitor, Monitor, MonitorStatus, Timestamp, UpdateMonitor};
use webpulse::store::{
    deletion_outcome, monitor_not_found, new_monitor_values, updated_monitor_values, validate,
    validate_parsed, MonitorValues,
};

fn bad(message: &str) -> AppError {
    AppError::BadRequest(message.to_string())
}

fn monitor() -> Monitor {
    let t = Timestamp::from_unix(1_700_000_000, 0).unwrap();
    Monitor {
        id: 5,
        name: "Example".to_string(),
        url: "https://example.com".to_string(),
        check_interval_secs: 60,
        timeout_secs: 10,
        status: MonitorStatus::Up,
        last_check_at: Some(t),
        last_response_time_ms: Some(42),
        created_at: t,
        updated_at: t,
    }
}

#[test]
fn validation_accepts_http_and_https() {
    assert_eq!(validate("http://example.com", 1, 1), Ok(()));
    assert_eq!(validate("https://example.com/health", 60, 30), Ok(()));
    assert_eq!(validate("HTTPS://EXAMPLE.COM", 60, 30), Ok(()));
}

#[test]
fn validation_refuses_other_schemes() {
    assert_eq!(
        validate("ftp://example.com", 60, 30),
        Err(bad("URL 'ftp://example.com' must use http or https"))
    );
}

#[test]
fn validation_refuses_unparsable_urls() {
    assert_eq!(
        validate("example.com", 60, 30),
        Err(bad("Invalid URL 'example.com': relative URL without a base"))
    );
    assert_eq!(
        validate("http://", 60, 30),
        Err(bad("Invalid URL 'http://': empty host"))
    );
}

#[test]
fn validation_refuses_short_interval_and_timeout() {
    assert_eq!(
        validate("https://example.com", 0, 30),
        Err(bad("Check interval must be at least 1 second"))
    );
    assert_eq!(
        validate("https://example.com", 60, 0),
        Err(bad("Timeout must be at least 1 second"))
    );
    assert_eq!(
        validate("https://example.com", -5, -5),
        Err(bad("Check interval must be at least 1 second"))
    );
}

#[test]
fn validation_of_a_given_parse_result() {
    assert_eq!(
        validate_parsed("x", Err("boom".to_string()), 60, 30),
        Err(bad("Invalid URL 'x': boom"))
    );
    assert_eq!(validate_parsed("x", Ok("https".to_string()), 60, 30), Ok(()));
    assert_eq!(
        validate_parsed("x", Ok("mailto".to_string()), 60, 30),
        Err(bad("URL 'x' must use http or https"))
    );
}

#[test]
fn rejections_are_bad_requests() {
    for (url, interval, timeout) in [("nope", 60, 30), ("ftp://a.b", 60, 30), ("http://a.b", 0, 30)] {
        let error = validate(url, interval, timeout).unwrap_err();
        assert_eq!(error.status(), 400);
    }
}

#[test]
fn create_uses_configured_defaults() {
    let config = MonitorConfig::default();
    let input = CreateMonitor {
        name: "Site".to_string(),
        url: "https://example.com".to_string(),
        check_interval_secs: None,
        timeout_secs: None,
    };
    assert_eq!(
        new_monitor_values(&config, input),
        Ok(MonitorValues {
            name: "Site".to_string(),
            url: "https://example.com".to_string(),
            check_interval_secs: 60,
            timeout_secs: 30,
        })
    );
}

#[test]
fn create_keeps_given_values_and_validates_them() {
    let config = MonitorConfig { default_timeout_secs: 5, default_interval_secs: 15, history_retention_count: 10 };
    let input = CreateMonitor {
        name: "Site".to_string(),
        url: "http://example.com".to_string(),
        check_interval_secs: Some(120),
        timeout_secs: Some(7),
    };
    let values = new_monitor_values(&config, input).unwrap();
    assert_eq!(values.check_interval_secs, 120);
    assert_eq!(values.timeout_secs, 7);
    let refused = CreateMonitor {
        name: "Site".to_string(),
        url: "http://example.com".to_string(),
        check_interval_secs: Some(0),
        timeout_secs: None,
    };
    assert_eq!(
        new_monitor_values(&config, refused),
        Err(bad("Check interval must be at least 1 second"))
    );
    let default_refused = MonitorConfig { default_timeout_secs: 0, default_interval_secs: 15, history_retention_count: 10 };
    let input = CreateMonitor {
        name: "Site".to_string(),
        url: "http://example.com".to_string(),
        check_interval_secs: None,
        timeout_secs: None,
    };
    assert_eq!(
        new_monitor_values(&default_refused, input),
        Err(bad("Timeout must be at least 1 second"))
    );
}

#[test]
fn update_replaces_only_given_fields() {
    let input = UpdateMonitor {
        name: None,
        url: Some("http://other.example".to_string()),
        check_interval_secs: None,
        timeout_secs: Some(3),
    };
    assert_eq!(
        updated_monitor_values(monitor(), input),
        Ok(MonitorValues {
            name: "Example".to_string(),
            url: "http://other.example".to_string(),
            check_interval_secs: 60,
            timeout_secs: 3,
        })
    );
}

#[test]
fn empty_update_keeps_the_monitor() {
    let input = UpdateMonitor { name: None, url: None, check_interval_secs: None, timeout_secs: None };
    let values = updated_monitor_values(monitor(), input).unwrap();
    let m = monitor();
    assert_eq!(values.name, m.name);
    assert_eq!(values.url, m.url);
    assert_eq!(values.check_interval_secs, m.check_interval_secs);
    assert_eq!(values.timeout_secs, m.timeout_secs);
}

#[test]
fn update_twice_is_update_once() {
    let input = UpdateMonitor {
        name: Some("Renamed".to_string()),
        url: None,
        check_interval_secs: Some(90),
        timeout_secs: None,
    };
    let once = updated_monitor_values(monitor(), input.clone()).unwrap();
    let mut applied = monitor();
    applied.name = once.name.clone();
    applied.url = once.url.clone();
    applied.check_interval_secs = once.check_interval_secs;
    applied.timeout_secs = once.timeout_secs;
    let twice = updated_monitor_values(applied, input).unwrap();
    assert_eq!(once, twice);
}

#[test]
fn update_is_validated() {
    let input = UpdateMonitor {
        name: None,
        url: Some("gopher://example.com".to_string()),
        check_interval_secs: None,
        timeout_secs: None,
    };
    assert_eq!(
        updated_monitor_values(monitor(), input),
        Err(bad("URL 'gopher://example.com' must use http or https"))
    );
}

#[test]
fn missing_monitors() {
    assert_eq!(monitor_not_found(12), AppError::NotFound("Monitor 12 not found".to_string()));
    assert_eq!(monitor_not_found(-1), AppError::NotFound("Monitor -1 not found".to_string()));
    assert_eq!(deletion_outcome(4, 0), Err(AppError::NotFound("Monitor 4 not found".to_string())));
    assert_eq!(deletion_outcome(4, 1), Ok(()));
    assert_eq!(monitor_not_found(12).status(), 404);
}
