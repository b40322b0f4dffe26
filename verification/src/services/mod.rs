pub mod checker;
pub mod heartbeat_checker;
pub mod http_checker;
pub mod scheduler;
