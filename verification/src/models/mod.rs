pub mod heartbeat;
pub mod history;
pub mod monitor;
pub mod time;

pub use heartbeat::{CreateHeartbeat, Heartbeat, HeartbeatStatus, HeartbeatUpdate};
pub use history::{History, HistoryStatus};
pub use monitor::{CreateMonitor, Monitor, MonitorStatus, UpdateMonitor};
pub use time::{TimeLayout, Timestamp};
