//! Monitored HTTP endpoints and the requests that create and change them.
use vstd::prelude::*;

use super::time::Timestamp;

verus! {

/// An HTTP endpoint that is checked periodically.
#[derive(Clone, Debug, PartialEq, Eq)]
pub struct Monitor {
    pub id: i64,
    pub name: String,
    pub url: String,
    pub check_interval_secs: i64,
    pub timeout_secs: i64,
    pub status: MonitorStatus,
    pub last_check_at: Option<Timestamp>,
    pub last_response_time_ms: Option<i64>,
    pub created_at: Timestamp,
    pub updated_at: Timestamp,
}

/// The state of a monitor after its latest check.
#[derive(Clone, Copy, Debug, PartialEq, Eq, Structural)]
pub enum MonitorStatus {
    Up,
    Down,
    Unknown,
}

impl MonitorStatus {
    /// The lower-case name under which the status is stored and shown.
    pub open spec fn name(self) -> Seq<char> {
        match self {
            MonitorStatus::Up => "up"@,
            MonitorStatus::Down => "down"@,
            MonitorStatus::Unknown => "unknown"@,
        }
    }

    /// The lower-case name of the status.
    pub fn as_str(self) -> (r: &'static str)
        ensures
            r@ == self.name(),
    {
        match self {
            MonitorStatus::Up => "up",
            MonitorStatus::Down => "down",
            MonitorStatus::Unknown => "unknown",
        }
    }
}

impl Default for MonitorStatus {
    /// A monitor that was never checked is `Unknown`.
    fn default() -> (r: Self)
        ensures
            r == MonitorStatus::Unknown,
    {
        MonitorStatus::Unknown
    }
}

/// The fields of a new monitor; the check interval and the timeout fall back
/// to the configured defaults when absent.
#[derive(Clone, Debug, PartialEq, Eq)]
pub struct CreateMonitor {
    pub name: String,
    pub url: String,
    pub check_interval_secs: Option<i64>,
    pub timeout_secs: Option<i64>,
}

/// A change to a monitor: each present field replaces the stored one.
#[derive(Clone, Debug, PartialEq, Eq)]
pub struct UpdateMonitor {
    pub name: Option<String>,
    pub url: Option<String>,
    pub check_interval_secs: Option<i64>,
    pub timeout_secs: Option<i64>,
}

} // verus!
