//! Deciding whether a heartbeat is healthy, late or down from the time of its last ping.
use vstd::prelude::*;

use crate::models::time::{utc_whole_seconds_between, ClockReading, Timestamp};
use crate::models::HeartbeatStatus;

verus! {

/// The status of a heartbeat `elapsed` seconds after its last ping: down once
/// the interval and the grace period have both passed, late once the interval
/// has passed, healthy before.
pub open spec fn status_after(elapsed: int, expected_interval_secs: int, grace_period_secs: int) -> HeartbeatStatus {
    if elapsed > expected_interval_secs + grace_period_secs {
        HeartbeatStatus::Down
    } else if elapsed > expected_interval_secs {
        HeartbeatStatus::Late
    } else {
        HeartbeatStatus::Healthy
    }
}

/// The deadline of a heartbeat fits in an `i64`.
pub open spec fn deadline_fits(expected_interval_secs: i64, grace_period_secs: i64) -> bool {
    i64::MIN <= expected_interval_secs + grace_period_secs <= i64::MAX
}

/// The status of a heartbeat `elapsed` seconds after its last ping.
pub fn status_for_elapsed(elapsed: i64, expected_interval_secs: i64, grace_period_secs: i64) -> (r: HeartbeatStatus)
    requires
        deadline_fits(expected_interval_secs, grace_period_secs),
    ensures
        r == status_after(elapsed as int, expected_interval_secs as int, grace_period_secs as int),
{
    let deadline = expected_interval_secs + grace_period_secs;
    if elapsed > deadline {
        HeartbeatStatus::Down
    } else if elapsed > expected_interval_secs {
        HeartbeatStatus::Late
    } else {
        HeartbeatStatus::Healthy
    }
}

/// The status of a heartbeat at `now`: unknown when it never pinged, otherwise
/// decided by the whole seconds since its last ping.
pub open spec fn status_at(
    expected_interval_secs: i64,
    grace_period_secs: i64,
    last_ping_at: Option<Timestamp>,
    now: Timestamp,
) -> HeartbeatStatus {
    match last_ping_at {
        None => HeartbeatStatus::Unknown,
        Some(last) => status_after(
            utc_whole_seconds_between(now@.0, now@.1, last@.0, last@.1) as int,
            expected_interval_secs as int,
            grace_period_secs as int,
        ),
    }
}

/// The status of a heartbeat at `now`.
pub fn heartbeat_status(
    expected_interval_secs: i64,
    grace_period_secs: i64,
    last_ping_at: Option<Timestamp>,
    now: Timestamp,
) -> (r: HeartbeatStatus)
    requires
        deadline_fits(expected_interval_secs, grace_period_secs),
    ensures
        r == status_at(expected_interval_secs, grace_period_secs, last_ping_at, now),
{
    match last_ping_at {
        None => HeartbeatStatus::Unknown,
        Some(last) => {
            let elapsed = now.whole_seconds_since(&last);
            status_for_elapsed(elapsed, expected_interval_secs, grace_period_secs)
        },
    }
}

/// The status of a heartbeat now: judged at the moment the clock reports
/// during the call.
pub fn current_heartbeat_status(
    expected_interval_secs: i64,
    grace_period_secs: i64,
    last_ping_at: Option<Timestamp>,
) -> (r: HeartbeatStatus)
    requires
        deadline_fits(expected_interval_secs, grace_period_secs),
    ensures
        last_ping_at is None ==> r == HeartbeatStatus::Unknown,
        last_ping_at is Some ==> exists|now: Timestamp|
            r == status_at(expected_interval_secs, grace_period_secs, last_ping_at, now),
        last_ping_at is Some ==> exists|reading: ClockReading|
            r == status_at(expected_interval_secs, grace_period_secs, last_ping_at, reading.moment()),
{
    let reading = Timestamp::read_clock();
    let now = reading.time();
    heartbeat_status(expected_interval_secs, grace_period_secs, last_ping_at, now)
}

/// How far along the way to down a status is.
pub open spec fn severity(status: HeartbeatStatus) -> int {
    match status {
        HeartbeatStatus::Healthy => 0,
        HeartbeatStatus::Late => 1,
        HeartbeatStatus::Down => 2,
        HeartbeatStatus::Unknown => -1,
    }
}

/// Time only makes a heartbeat worse: without a new ping, a later moment never
/// gives a healthier status.
pub proof fn law_status_worsens_with_time(
    earlier: int,
    later: int,
    expected_interval_secs: int,
    grace_period_secs: int,
)
    requires
        earlier <= later,
    ensures
        severity(status_after(earlier, expected_interval_secs, grace_period_secs)) <= severity(
            status_after(later, expected_interval_secs, grace_period_secs),
        ),
{
}

/// Right after a ping (no time elapsed) a heartbeat with a non-negative interval
/// and grace period is healthy, and a pinged heartbeat is never unknown.
pub proof fn law_fresh_ping_is_healthy(elapsed: int, expected_interval_secs: int, grace_period_secs: int)
    ensures
        expected_interval_secs >= 0 && grace_period_secs >= 0 ==> status_after(0, expected_interval_secs, grace_period_secs)
            == HeartbeatStatus::Healthy,
        status_after(elapsed, expected_interval_secs, grace_period_secs) != HeartbeatStatus::Unknown,
{
}

/// With a non-negative grace period, a heartbeat is healthy exactly until its
/// interval has passed and down exactly once the interval and the grace period
/// have both passed.
pub proof fn law_status_thresholds(elapsed: int, expected_interval_secs: int, grace_period_secs: int)
    requires
        grace_period_secs >= 0,
    ensures
        status_after(elapsed, expected_interval_secs, grace_period_secs) == HeartbeatStatus::Healthy
            <==> elapsed <= expected_interval_secs,
        status_after(elapsed, expected_interval_secs, grace_period_secs) == HeartbeatStatus::Down
            <==> elapsed > expected_interval_secs + grace_period_secs,
{
}

/// A non-negative grace period makes a heartbeat late before it is down: it is
/// late exactly while the interval has passed but the grace period has not.
pub proof fn law_late_within_grace(elapsed: int, expected_interval_secs: int, grace_period_secs: int)
    requires
        grace_period_secs >= 0,
    ensures
        status_after(elapsed, expected_interval_secs, grace_period_secs) == HeartbeatStatus::Late
            <==> expected_interval_secs < elapsed <= expected_interval_secs + grace_period_secs,
{
}

} // verus!
