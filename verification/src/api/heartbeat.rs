//! The rules behind the heartbeat endpoints: defaults for new heartbeats,
//! merging of partial updates, and the answers for missing heartbeats.
use vstd::prelude::*;

use crate::error::{AppError, AppResult};
use crate::models::{CreateHeartbeat, Heartbeat, HeartbeatUpdate};
use crate::text::{decimal, i64_to_decimal, owned};

verus! {

/// The columns written for a heartbeat when it is created or updated.
#[derive(Clone, Debug, PartialEq, Eq)]
pub struct HeartbeatValues {
    pub name: String,
    pub expected_interval_secs: i64,
    pub grace_period_secs: i64,
}

/// The heartbeat columns as spec values: name, interval and grace period.
pub type HeartbeatFields = (Seq<char>, i64, i64);

/// The view of the columns written for a heartbeat.
pub open spec fn heartbeat_fields_of(values: HeartbeatValues) -> HeartbeatFields {
    (values.name@, values.expected_interval_secs, values.grace_period_secs)
}

/// The interval of a heartbeat that does not set one: five minutes.
pub open spec fn default_expected_interval_secs() -> i64 {
    300
}

/// The grace period of a heartbeat that does not set one: one minute.
pub open spec fn default_grace_period_secs() -> i64 {
    60
}

/// The columns of a new heartbeat.
pub open spec fn created_heartbeat_fields(payload: CreateHeartbeat) -> HeartbeatFields {
    (
        payload.name@,
        match payload.expected_interval_secs {
            Some(v) => v,
            None => default_expected_interval_secs(),
        },
        match payload.grace_period_secs {
            Some(v) => v,
            None => default_grace_period_secs(),
        },
    )
}

/// The columns to insert for a new heartbeat.
pub fn new_heartbeat_values(payload: CreateHeartbeat) -> (r: HeartbeatValues)
    ensures
        heartbeat_fields_of(r) == created_heartbeat_fields(payload),
{
    HeartbeatValues {
        name: payload.name,
        expected_interval_secs: match payload.expected_interval_secs {
            Some(v) => v,
            None => 300,
        },
        grace_period_secs: match payload.grace_period_secs {
            Some(v) => v,
            None => 60,
        },
    }
}

/// The stored columns of a heartbeat.
pub open spec fn stored_heartbeat_fields(heartbeat: Heartbeat) -> HeartbeatFields {
    (heartbeat.name@, heartbeat.expected_interval_secs, heartbeat.grace_period_secs)
}

/// The columns of a heartbeat after a partial update: each present field
/// replaces the stored one.
pub open spec fn updated_heartbeat_fields(existing: HeartbeatFields, payload: HeartbeatUpdate) -> HeartbeatFields {
    (
        match payload.name {
            Some(v) => v@,
            None => existing.0,
        },
        match payload.expected_interval_secs {
            Some(v) => v,
            None => existing.1,
        },
        match payload.grace_period_secs {
            Some(v) => v,
            None => existing.2,
        },
    )
}

/// The columns to write for a heartbeat after a partial update.
pub fn updated_heartbeat_values(existing: &Heartbeat, payload: HeartbeatUpdate) -> (r: HeartbeatValues)
    ensures
        heartbeat_fields_of(r) == updated_heartbeat_fields(stored_heartbeat_fields(*existing), payload),
{
    let name = match payload.name {
        Some(n) => n,
        None => existing.name.clone(),
    };
    HeartbeatValues {
        name,
        expected_interval_secs: match payload.expected_interval_secs {
            Some(v) => v,
            None => existing.expected_interval_secs,
        },
        grace_period_secs: match payload.grace_period_secs {
            Some(v) => v,
            None => existing.grace_period_secs,
        },
    }
}

/// The message for a heartbeat id that names no heartbeat.
pub open spec fn heartbeat_not_found_text(id: i64) -> Seq<char> {
    "Heartbeat "@ + decimal(id as int) + " not found"@
}

/// The error for a heartbeat id that names no heartbeat.
pub fn heartbeat_not_found(id: i64) -> (r: AppError)
    ensures
        r matches AppError::NotFound(m) && m@ == heartbeat_not_found_text(id),
{
    let mut m = owned("Heartbeat ");
    m.append(i64_to_decimal(id).as_str());
    m.append(" not found");
    AppError::NotFound(m)
}

/// The error for a ping to a UUID that names no heartbeat.
pub fn heartbeat_uuid_not_found(uuid: &str) -> (r: AppError)
    ensures
        r matches AppError::NotFound(m) && m@ == "Heartbeat with uuid "@ + uuid@ + " not found"@,
{
    let mut m = owned("Heartbeat with uuid ");
    m.append(uuid);
    m.append(" not found");
    AppError::NotFound(m)
}

/// The answer to deleting heartbeat `id`, given how many rows the deletion
/// removed: not found when it removed none.
pub fn heartbeat_deletion_outcome(id: i64, rows_affected: u64) -> (r: AppResult<()>)
    ensures
        rows_affected == 0 ==> (r matches Err(AppError::NotFound(m)) && m@ == heartbeat_not_found_text(id)),
        rows_affected != 0 ==> r is Ok,
{
    if rows_affected == 0 {
        Err(heartbeat_not_found(id))
    } else {
        Ok(())
    }
}

/// An update that sets no field leaves the heartbeat's columns as they were.
pub proof fn law_empty_heartbeat_update_keeps_values(existing: HeartbeatFields)
    ensures
        updated_heartbeat_fields(
            existing,
            HeartbeatUpdate { name: None, expected_interval_secs: None, grace_period_secs: None },
        ) == existing,
{
}

/// A partial heartbeat update writes every field it sets exactly as given, and
/// keeps every field it leaves out as stored.
pub proof fn law_heartbeat_update_writes_given_fields(existing: HeartbeatFields, payload: HeartbeatUpdate)
    ensures
        payload.name matches Some(v) ==> updated_heartbeat_fields(existing, payload).0 == v@,
        payload.expected_interval_secs matches Some(v) ==> updated_heartbeat_fields(existing, payload).1
            == v,
        payload.grace_period_secs matches Some(v) ==> updated_heartbeat_fields(existing, payload).2 == v,
        payload.name is None ==> updated_heartbeat_fields(existing, payload).0 == existing.0,
        payload.expected_interval_secs is None ==> updated_heartbeat_fields(existing, payload).1
            == existing.1,
        payload.grace_period_secs is None ==> updated_heartbeat_fields(existing, payload).2 == existing.2,
{
}

/// A new heartbeat that sets neither interval nor grace period waits five
/// minutes, then one more minute, before it counts as down.
pub proof fn law_heartbeat_defaults(payload: CreateHeartbeat)
    ensures
        payload.expected_interval_secs is None ==> created_heartbeat_fields(payload).1 == 300,
        payload.grace_period_secs is None ==> created_heartbeat_fields(payload).2 == 60,
        payload.expected_interval_secs matches Some(v) ==> created_heartbeat_fields(payload).1 == v,
        payload.grace_period_secs matches Some(v) ==> created_heartbeat_fields(payload).2 == v,
{
}

} // verus!
