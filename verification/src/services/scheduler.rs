//! The scheduler's decision for each claimed monitor: how long its probe may take.
use vstd::prelude::*;

verus! {

/// The probe timeout for a monitor's stored timeout: at least one second.
pub open spec fn probe_timeout(timeout_secs: i64) -> int {
    if timeout_secs < 1 {
        1
    } else {
        timeout_secs as int
    }
}

/// The probe timeout, in whole seconds, for a monitor's stored timeout.
pub fn probe_timeout_secs(timeout_secs: i64) -> (r: u64)
    ensures
        r == probe_timeout(timeout_secs),
        r >= 1,
{
    if timeout_secs < 1 {
        1
    } else {
        timeout_secs as u64
    }
}

} // verus!
