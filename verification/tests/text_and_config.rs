use webpulse::config::{
    Config, DatabaseConfig, LoggingConfig, MonitorConfig, SchedulerConfig, ServerConfig,
};
use webpulse::text::{i64_to_decimal, join_strings, to_lowercase, u64_to_decimal};

#[test]
fn decimal_rendering_matches_display() {
    for n in [0i64, 7, -7, 10, 1234567890, -1000, i64::MAX, i64::MIN] {
        assert_eq!(i64_to_decimal(n), n.to_string());
    }
    for n in [0u64, 9, 10, 65535, u64::MAX] {
        assert_eq!(u64_to_decimal(n), n.to_string());
    }
}

#[test]
fn lowercase_of_ascii_and_other_text() {
    assert_eq!(to_lowercase("HeAlThY"), "healthy");
    assert_eq!(to_lowercase("ÉCOLE"), "école");
    assert_eq!(to_lowercase(""), "");
}

#[test]
fn join_puts_separator_between_parts() {
    let parts = vec!["a".to_string(), "bc".to_string(), "d".to_string()];
    assert_eq!(join_strings(&parts, ", "), "a, bc, d");
    assert_eq!(join_strings(&vec![], "-"), "");
    assert_eq!(join_strings(&vec!["x".to_string()], "-"), "x");
}

#[test]
fn config_defaults() {
    let config = Config::default();
    assert_eq!(config.server.host, "0.0.0.0");
    assert_eq!(config.server.port, 3000);
    assert_eq!(config.database.path, "webpulse.db");
    assert_eq!(config.database.max_connections, 10);
    assert_eq!(config.scheduler.max_concurrent_checks, 100);
    assert_eq!(config.scheduler.check_batch_interval_ms, 1000);
    assert_eq!(config.monitor.default_timeout_secs, 30);
    assert_eq!(config.monitor.default_interval_secs, 60);
    assert_eq!(config.monitor.history_retention_count, 100);
    assert_eq!(config.logging.level, "info");
    assert_eq!(ServerConfig::default(), config.server);
    assert_eq!(DatabaseConfig::default(), config.database);
    assert_eq!(SchedulerConfig::default(), config.scheduler);
    assert_eq!(MonitorConfig::default(), config.monitor);
    assert_eq!(LoggingConfig::default(), config.logging);
}

#[test]
fn database_url_and_log_directive() {
    let database = DatabaseConfig { path: "/data/webpulse.db".to_string(), max_connections: 4 };
    assert_eq!(database.url(), "sqlite:/data/webpulse.db?mode=rwc");
    assert_eq!(DatabaseConfig::default().url(), "sqlite:webpulse.db?mode=rwc");
    let logging = LoggingConfig { level: "debug".to_string() };
    assert_eq!(logging.directive(), "webpulse=debug");
}

#[test]
fn health_check_url_uses_the_port() {
    assert_eq!(ServerConfig::default().health_check_url(), "http://127.0.0.1:3000/");
    let server = ServerConfig { host: "::".to_string(), port: 8080 };
    assert_eq!(server.health_check_url(), "http://127.0.0.1:8080/");
}
