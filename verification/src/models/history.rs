//! The outcome of each check of a monitor.
use vstd::prelude::*;

use super::monitor::MonitorStatus;
use super::time::Timestamp;

verus! {

/// One recorded check of a monitor.
#[derive(Clone, Debug, PartialEq, Eq)]
pub struct History {
    pub id: i64,
    pub monitor_id: i64,
    pub status: HistoryStatus,
    pub response_time_ms: Option<i64>,
    pub error_message: Option<String>,
    pub checked_at: Timestamp,
}

/// Whether a check found the endpoint up or down.
#[derive(Clone, Copy, Debug, PartialEq, Eq, Structural)]
pub enum HistoryStatus {
    Up,
    Down,
}

impl HistoryStatus {
    /// The lower-case name under which the status is stored and shown.
    pub open spec fn name(self) -> Seq<char> {
        match self {
            HistoryStatus::Up => "up"@,
            HistoryStatus::Down => "down"@,
        }
    }

    /// The lower-case name of the status.
    pub fn as_str(self) -> (r: &'static str)
        ensures
            r@ == self.name(),
    {
        match self {
            HistoryStatus::Up => "up",
            HistoryStatus::Down => "down",
        }
    }
}

/// The monitor status that a check with the given outcome leaves behind.
pub open spec fn monitor_status_after(status: HistoryStatus) -> MonitorStatus {
    match status {
        HistoryStatus::Up => MonitorStatus::Up,
        HistoryStatus::Down => MonitorStatus::Down,
    }
}

impl From<HistoryStatus> for MonitorStatus {
    fn from(status: HistoryStatus) -> (r: MonitorStatus)
        ensures
            r == monitor_status_after(status),
    {
        match status {
            HistoryStatus::Up => MonitorStatus::Up,
            HistoryStatus::Down => MonitorStatus::Down,
        }
    }
}

impl vstd::std_specs::convert::FromSpecImpl<HistoryStatus> for MonitorStatus {
    open spec fn obeys_from_spec() -> bool {
        true
    }

    open spec fn from_spec(status: HistoryStatus) -> MonitorStatus {
        monitor_status_after(status)
    }
}

/// A monitor's status after a check names the check's outcome: converting a check
/// outcome to a monitor status keeps its stored name.
pub proof fn law_monitor_status_keeps_check_name(status: HistoryStatus)
    ensures
        monitor_status_after(status).name() == status.name(),
        monitor_status_after(status) != MonitorStatus::Unknown,
{
}

} // verus!
