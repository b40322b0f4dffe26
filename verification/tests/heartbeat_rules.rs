use webpulse::api::heartbeat::{
    heartbeat_deletion_outcome, heartbeat_not_found, heartbeat_uuid_not_found,
    new_heartbeat_values, updated_heartbeat_values, HeartbeatValues,
};
use webpulse::error::AppError;
use webpulse::models::{CreateHeartbeat, Heartbeat, HeartbeatStatus, HeartbeatUpdate};

fn heartbeat() -> Heartbeat {
    Heartbeat {
        id: 2,
        uuid: "67e55044-10b1-426f-9247-bb680e5fe0c8".to_string(),
        name: "Nightly backup".to_string(),
        expected_interval_secs: 86_400,
        grace_period_secs: 600,
        status: HeartbeatStatus::Healthy,
        last_ping_at: None,
        created_at: None,
        updated_at: None,
    }
}

#[test]
fn new_heartbeat_defaults() {
    let values = new_heartbeat_values(CreateHeartbeat {
        name: "job".to_string(),
        expected_interval_secs: None,
        grace_period_secs: None,
    });
    assert_eq!(
        values,
        HeartbeatValues { name: "job".to_string(), expected_interval_secs: 300, grace_period_secs: 60 }
    );
    let values = new_heartbeat_values(CreateHeartbeat {
        name: "job".to_string(),
        expected_interval_secs: Some(10),
        grace_period_secs: Some(0),
    });
    assert_eq!(values.expected_interval_secs, 10);
    assert_eq!(values.grace_period_secs, 0);
}

#[test]
fn heartbeat_update_merges() {
    let values = updated_heartbeat_values(
        &heartbeat(),
        HeartbeatUpdate { name: Some("Backup".to_string()), expected_interval_secs: None, grace_period_secs: Some(30) },
    );
    assert_eq!(
        values,
        HeartbeatValues { name: "Backup".to_string(), expected_interval_secs: 86_400, grace_period_secs: 30 }
    );
    let unchanged = updated_heartbeat_values(
        &heartbeat(),
        HeartbeatUpdate { name: None, expected_interval_secs: None, grace_period_secs: None },
    );
    assert_eq!(
        unchanged,
        HeartbeatValues { name: "Nightly backup".to_string(), expected_interval_secs: 86_400, grace_period_secs: 600 }
    );
}

#[test]
fn missing_heartbeats() {
    assert_eq!(heartbeat_not_found(8), AppError::NotFound("Heartbeat 8 not found".to_string()));
    assert_eq!(
        heartbeat_uuid_not_found("abc"),
        AppError::NotFound("Heartbeat with uuid abc not found".to_string())
    );
    assert_eq!(heartbeat_deletion_outcome(8, 0), Err(AppError::NotFound("Heartbeat 8 not found".to_string())));
    assert_eq!(heartbeat_deletion_outcome(8, 2), Ok(()));
}
