//! Settings of the service, with the defaults that apply to every absent value.
use vstd::prelude::*;

use crate::text::{decimal, owned, u64_to_decimal};

verus! {

/// All settings, one table each.
#[derive(Clone, Debug, PartialEq, Eq)]
pub struct Config {
    pub server: ServerConfig,
    pub database: DatabaseConfig,
    pub scheduler: SchedulerConfig,
    pub monitor: MonitorConfig,
    pub logging: LoggingConfig,
}

impl Default for Config {
    /// Every table at its default.
    fn default() -> (r: Self)
        ensures
            r.server.is_default(),
            r.database.is_default(),
            r.scheduler.is_default(),
            r.monitor.is_default(),
            r.logging.is_default(),
    {
        Config {
            server: ServerConfig::default(),
            database: DatabaseConfig::default(),
            scheduler: SchedulerConfig::default(),
            monitor: MonitorConfig::default(),
            logging: LoggingConfig::default(),
        }
    }
}

/// Where the service listens.
#[derive(Clone, Debug, PartialEq, Eq)]
pub struct ServerConfig {
    pub host: String,
    pub port: u16,
}

impl ServerConfig {
    /// All interfaces, port 3000.
    pub open spec fn is_default(self) -> bool {
        self.host@ == "0.0.0.0"@ && self.port == 3000
    }
}

impl ServerConfig {
    /// The address the health check probes: the dashboard on the local
    /// interface at the configured port.
    pub fn health_check_url(&self) -> (r: String)
        ensures
            r@ == "http://127.0.0.1:"@ + decimal(self.port as int) + "/"@,
    {
        let mut out = owned("http://127.0.0.1:");
        out.append(u64_to_decimal(self.port as u64).as_str());
        out.append("/");
        out
    }
}

impl Default for ServerConfig {
    fn default() -> (r: Self)
        ensures
            r.is_default(),
    {
        ServerConfig { host: owned("0.0.0.0"), port: 3000 }
    }
}

/// The SQLite database file and the size of the connection pool.
#[derive(Clone, Debug, PartialEq, Eq)]
pub struct DatabaseConfig {
    pub path: String,
    pub max_connections: u32,
}

impl DatabaseConfig {
    /// `webpulse.db` in the working directory, ten connections.
    pub open spec fn is_default(self) -> bool {
        self.path@ == "webpulse.db"@ && self.max_connections == 10
    }

    /// The connection URL of the database file, opened for reading and writing
    /// and created when missing.
    pub open spec fn url_text(self) -> Seq<char> {
        "sqlite:"@ + self.path@ + "?mode=rwc"@
    }

    /// The connection URL of the database file.
    pub fn url(&self) -> (r: String)
        ensures
            r@ == self.url_text(),
    {
        let mut out = owned("sqlite:");
        out.append(self.path.as_str());
        out.append("?mode=rwc");
        out
    }
}

impl Default for DatabaseConfig {
    fn default() -> (r: Self)
        ensures
            r.is_default(),
    {
        DatabaseConfig { path: owned("webpulse.db"), max_connections: 10 }
    }
}

/// How many probes may run at once, and how often due monitors are claimed.
#[derive(Clone, Debug, PartialEq, Eq)]
pub struct SchedulerConfig {
    pub max_concurrent_checks: usize,
    pub check_batch_interval_ms: u64,
}

impl SchedulerConfig {
    /// A hundred probes in flight, a claim every second.
    pub open spec fn is_default(self) -> bool {
        self.max_concurrent_checks == 100 && self.check_batch_interval_ms == 1000
    }
}

impl Default for SchedulerConfig {
    fn default() -> (r: Self)
        ensures
            r.is_default(),
    {
        SchedulerConfig { max_concurrent_checks: 100, check_batch_interval_ms: 1000 }
    }
}

/// Defaults for monitors that do not set their own values, and how many
/// checks are kept per monitor.
#[derive(Clone, Debug, PartialEq, Eq)]
pub struct MonitorConfig {
    pub default_timeout_secs: i64,
    pub default_interval_secs: i64,
    pub history_retention_count: i64,
}

impl MonitorConfig {
    /// A 30 second timeout, a check a minute, a hundred checks kept.
    pub open spec fn is_default(self) -> bool {
        self.default_timeout_secs == 30 && self.default_interval_secs == 60
            && self.history_retention_count == 100
    }
}

impl Default for MonitorConfig {
    fn default() -> (r: Self)
        ensures
            r.is_default(),
    {
        MonitorConfig {
            default_timeout_secs: 30,
            default_interval_secs: 60,
            history_retention_count: 100,
        }
    }
}

/// The log level of the service's own messages.
#[derive(Clone, Debug, PartialEq, Eq)]
pub struct LoggingConfig {
    pub level: String,
}

impl LoggingConfig {
    /// Informational messages and above.
    pub open spec fn is_default(self) -> bool {
        self.level@ == "info"@
    }

    /// The log filter directive for the service's own messages.
    pub fn directive(&self) -> (r: String)
        ensures
            r@ == "webpulse="@ + self.level@,
    {
        let mut out = owned("webpulse=");
        out.append(self.level.as_str());
        out
    }
}

impl Default for LoggingConfig {
    fn default() -> (r: Self)
        ensures
            r.is_default(),
    {
        LoggingConfig { level: owned("info") }
    }
}

} // verus!
