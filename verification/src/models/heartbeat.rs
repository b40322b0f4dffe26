//! Heartbeats: jobs that report in periodically, and are late or down when they stop.
use vstd::prelude::*;

use super::time::Timestamp;
use crate::text::{lowercased, to_lowercase};

verus! {

/// A job expected to ping every `expected_interval_secs`, with `grace_period_secs`
/// of slack before it counts as down.
#[derive(Clone, Debug, PartialEq, Eq)]
pub struct Heartbeat {
    pub id: i64,
    pub uuid: String,
    pub name: String,
    pub expected_interval_secs: i64,
    pub grace_period_secs: i64,
    pub status: HeartbeatStatus,
    pub last_ping_at: Option<Timestamp>,
    pub created_at: Option<Timestamp>,
    pub updated_at: Option<Timestamp>,
}

/// How recently a heartbeat last pinged.
#[derive(Clone, Copy, Debug, PartialEq, Eq, Structural)]
pub enum HeartbeatStatus {
    Healthy,
    Late,
    Down,
    Unknown,
}

impl HeartbeatStatus {
    /// The lower-case name under which the status is stored and shown.
    pub open spec fn name(self) -> Seq<char> {
        match self {
            HeartbeatStatus::Healthy => "healthy"@,
            HeartbeatStatus::Late => "late"@,
            HeartbeatStatus::Down => "down"@,
            HeartbeatStatus::Unknown => "unknown"@,
        }
    }

    /// The status as text, as its `Display` rendering gives it.
    pub fn to_string(&self) -> (r: String)
        ensures
            r@ == self.name(),
    {
        match self {
            HeartbeatStatus::Healthy => "healthy".to_string(),
            HeartbeatStatus::Late => "late".to_string(),
            HeartbeatStatus::Down => "down".to_string(),
            HeartbeatStatus::Unknown => "unknown".to_string(),
        }
    }
}

impl Default for HeartbeatStatus {
    /// A heartbeat that never pinged is `Unknown`.
    fn default() -> (r: Self)
        ensures
            r == HeartbeatStatus::Unknown,
    {
        HeartbeatStatus::Unknown
    }
}

/// The status that stored text names, compared after lower-casing;
/// any text other than `healthy`, `late` and `down` reads as `Unknown`.
pub open spec fn status_named(text: Seq<char>) -> HeartbeatStatus {
    let lowered = lowercased(text);
    if lowered == "healthy"@ {
        HeartbeatStatus::Healthy
    } else if lowered == "late"@ {
        HeartbeatStatus::Late
    } else if lowered == "down"@ {
        HeartbeatStatus::Down
    } else {
        HeartbeatStatus::Unknown
    }
}

impl<'a> From<&'a str> for HeartbeatStatus {
    fn from(text: &'a str) -> (r: HeartbeatStatus)
        ensures
            r == status_named(text@),
    {
        let lowered = to_lowercase(text);
        if lowered == "healthy".to_string() {
            HeartbeatStatus::Healthy
        } else if lowered == "late".to_string() {
            HeartbeatStatus::Late
        } else if lowered == "down".to_string() {
            HeartbeatStatus::Down
        } else {
            HeartbeatStatus::Unknown
        }
    }
}

impl<'a> vstd::std_specs::convert::FromSpecImpl<&'a str> for HeartbeatStatus {
    open spec fn obeys_from_spec() -> bool {
        true
    }

    open spec fn from_spec(text: &'a str) -> HeartbeatStatus {
        status_named(text@)
    }
}

/// The fields of a new heartbeat; the interval and the grace period default
/// to 300 and 60 seconds when absent.
#[derive(Clone, Debug, PartialEq, Eq)]
pub struct CreateHeartbeat {
    pub name: String,
    pub expected_interval_secs: Option<i64>,
    pub grace_period_secs: Option<i64>,
}

/// A change to a heartbeat: each present field replaces the stored one.
#[derive(Clone, Debug, PartialEq, Eq)]
pub struct HeartbeatUpdate {
    pub name: Option<String>,
    pub expected_interval_secs: Option<i64>,
    pub grace_period_secs: Option<i64>,
}

/// A lower-case hexadecimal digit.
pub open spec fn is_lower_hex(c: char) -> bool {
    ('0' <= c <= '9') || ('a' <= c <= 'f')
}

/// The hyphenated text of a random (version 4, RFC 4122 variant) UUID,
/// such as `67e55044-10b1-426f-9247-bb680e5fe0c8`.
pub open spec fn is_random_uuid_text(s: Seq<char>) -> bool {
    &&& s.len() == 36
    &&& forall|i: int|
        0 <= i < 36 ==> (if i == 8 || i == 13 || i == 18 || i == 23 {
            s[i] == '-'
        } else {
            is_lower_hex(#[trigger] s[i])
        })
    &&& s[14] == '4'
    &&& (s[19] == '8' || s[19] == '9' || s[19] == 'a' || s[19] == 'b')
}

/// Draws a random UUID with `uuid::Uuid::new_v4` and renders it with its `Display`
/// impl, the lower-case hyphenated form with the version and variant bits set.
/// The digits are random: nothing is claimed of them beyond that form. `uuid`
/// panics only when the operating system hands out no random bytes.
#[verifier::external_body]
fn random_uuid_text() -> (r: String)
    ensures
        is_random_uuid_text(r@),
{
    uuid::Uuid::new_v4().to_string()
}

impl Heartbeat {
    /// A fresh random identifier for a new heartbeat's ping URL.
    pub fn generate_uuid() -> (r: String)
        ensures
            is_random_uuid_text(r@),
    {
        random_uuid_text()
    }
}

/// Reading back the stored name of a status gives the status again.
pub proof fn law_status_name_round_trip(status: HeartbeatStatus)
    ensures
        status_named(status.name()) == status,
{
    reveal_strlit("healthy");
    reveal_strlit("late");
    reveal_strlit("down");
    reveal_strlit("unknown");
    let n = status.name();
    assert(crate::text::all_ascii(n));
    assert(crate::text::ascii_lowercased(n) =~= n);
    assert("healthy"@ != "late"@ && "healthy"@ != "down"@ && "late"@ != "down"@) by {
        assert("healthy"@.len() != "late"@.len());
        assert("healthy"@.len() != "down"@.len());
        assert("late"@[0] != "down"@[0]);
    }
    assert("unknown"@ != "healthy"@ && "unknown"@ != "late"@ && "unknown"@ != "down"@) by {
        assert("unknown"@[0] != "healthy"@[0]);
        assert("unknown"@.len() != "late"@.len());
        assert("unknown"@.len() != "down"@.len());
    }
}

} // verus!
