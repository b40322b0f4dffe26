//! Turning the outcome of an HTTP probe into a recorded check.
use vstd::prelude::*;

use crate::models::HistoryStatus;
use crate::text::{decimal, owned, u64_to_decimal};

verus! {

/// The result of one check of a monitor.
#[derive(Clone, Debug, PartialEq, Eq)]
pub struct CheckResult {
    pub status: HistoryStatus,
    pub response_time_ms: Option<i64>,
    pub error_message: Option<String>,
}

/// What an HTTP probe came back with: a response with its status code,
/// or the message of the error that stopped the request.
#[derive(Clone, Debug, PartialEq, Eq)]
pub enum ProbeOutcome {
    Responded { status: u16 },
    Failed { message: String },
}

/// Whether a status code is a success (200-299), as `http::StatusCode::is_success` decides.
pub open spec fn success_status(status: u16) -> bool {
    200 <= status < 300
}

/// Whether a status code is a success (200-299).
pub fn is_success(status: u16) -> (r: bool)
    ensures
        r == success_status(status),
{
    200 <= status && status < 300
}

/// The canonical reason phrase that `http` knows for a status code, if any.
pub uninterp spec fn canonical_reason_of(status: u16) -> Option<Seq<char>>;

/// Looks up the reason phrase of a status code with `http::StatusCode::canonical_reason`
/// (reached through `reqwest::StatusCode`).
#[verifier::external_body]
fn canonical_reason(status: u16) -> (r: Option<String>)
    requires
        100 <= status <= 999,
    ensures
        match r {
            Some(reason) => canonical_reason_of(status) == Some(reason@),
            None => canonical_reason_of(status) is None,
        },
{
    match reqwest::StatusCode::from_u16(status).expect("a status code in 100..=999").canonical_reason() {
        Some(reason) => Some(reason.to_string()),
        None => None,
    }
}

/// A status code as `http::StatusCode` displays it: the number and the reason phrase.
pub open spec fn status_line_text(status: u16) -> Seq<char> {
    decimal(status as int) + " "@ + match canonical_reason_of(status) {
        Some(reason) => reason,
        None => "<unknown status code>"@,
    }
}

/// A status code with its reason phrase, such as `404 Not Found`.
pub fn status_line(status: u16) -> (r: String)
    requires
        100 <= status <= 999,
    ensures
        r@ == status_line_text(status),
{
    let mut out = u64_to_decimal(status as u64);
    out.append(" ");
    match canonical_reason(status) {
        Some(reason) => out.append(reason.as_str()),
        None => out.append("<unknown status code>"),
    }
    out
}

/// A probe outcome whose status code, if any, is a valid HTTP status code.
pub open spec fn valid_outcome(outcome: ProbeOutcome) -> bool {
    outcome matches ProbeOutcome::Responded { status } ==> 100 <= status <= 999
}

/// The check recorded for a probe outcome after `elapsed_ms` milliseconds: up
/// for a successful status, down with `HTTP <status>` for any other, and down
/// with the error's message when no response came.
pub open spec fn classified(outcome: ProbeOutcome, elapsed_ms: i64, r: CheckResult) -> bool {
    &&& r.response_time_ms == Some(elapsed_ms)
    &&& match outcome {
        ProbeOutcome::Responded { status } => if success_status(status) {
            r.status == HistoryStatus::Up && r.error_message is None
        } else {
            &&& r.status == HistoryStatus::Down
            &&& r.error_message matches Some(m) && m@ == "HTTP "@ + status_line_text(status)
        },
        ProbeOutcome::Failed { message } => {
            &&& r.status == HistoryStatus::Down
            &&& r.error_message matches Some(m) && m@ == message@
        },
    }
}

/// The check to record for a probe outcome.
pub fn classify(outcome: ProbeOutcome, elapsed_ms: i64) -> (r: CheckResult)
    requires
        valid_outcome(outcome),
    ensures
        classified(outcome, elapsed_ms, r),
{
    match outcome {
        ProbeOutcome::Responded { status } => {
            if is_success(status) {
                CheckResult {
                    status: HistoryStatus::Up,
                    response_time_ms: Some(elapsed_ms),
                    error_message: None,
                }
            } else {
                let mut m = owned("HTTP ");
                m.append(status_line(status).as_str());
                CheckResult {
                    status: HistoryStatus::Down,
                    response_time_ms: Some(elapsed_ms),
                    error_message: Some(m),
                }
            }
        },
        ProbeOutcome::Failed { message } => CheckResult {
            status: HistoryStatus::Down,
            response_time_ms: Some(elapsed_ms),
            error_message: Some(message),
        },
    }
}

/// A check is up exactly when it carries no error message, and it always
/// records how long the probe took.
pub proof fn law_up_iff_no_error(outcome: ProbeOutcome, elapsed_ms: i64, r: CheckResult)
    requires
        classified(outcome, elapsed_ms, r),
    ensures
        r.status == HistoryStatus::Up <==> r.error_message is None,
        r.response_time_ms is Some,
{
}

/// A probe that got an answer is up exactly when the status is 200-299.
pub proof fn law_up_iff_success_status(status: u16, elapsed_ms: i64, r: CheckResult)
    requires
        classified(ProbeOutcome::Responded { status }, elapsed_ms, r),
    ensures
        r.status == HistoryStatus::Up <==> 200 <= status <= 299,
{
}

} // verus!
