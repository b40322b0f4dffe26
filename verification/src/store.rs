//! The rules the monitor store applies before it writes: defaults, merging of
//! partial updates, validation, and the answers for missing monitors.
use vstd::prelude::*;

use crate::config::MonitorConfig;
use crate::error::{AppError, AppResult};
use crate::models::{CreateMonitor, Monitor, UpdateMonitor};
use crate::text::{decimal, i64_to_decimal, owned};

verus! {

/// Counts of monitors by status.
#[derive(Clone, Debug, PartialEq, Eq)]
pub struct Stats {
    pub total: i64,
    pub online: i64,
    pub offline: i64,
    pub unknown: i64,
}

/// The columns written for a monitor when it is created or updated.
#[derive(Clone, Debug, PartialEq, Eq)]
pub struct MonitorValues {
    pub name: String,
    pub url: String,
    pub check_interval_secs: i64,
    pub timeout_secs: i64,
}

/// What `reqwest::Url::parse` makes of a text: the URL's scheme when it parses,
/// the message of the parse error when it does not.
pub uninterp spec fn parsed_url_scheme(url: Seq<char>) -> Result<Seq<char>, Seq<char>>;

/// Parses a URL with `reqwest::Url::parse` (the `url` crate's parser) and returns
/// its scheme (`Url::scheme`), or the `Display` text of the parse error.
#[verifier::external_body]
fn url_scheme(url: &str) -> (r: Result<String, String>)
    ensures
        match r {
            Ok(scheme) => parsed_url_scheme(url@) == Ok::<Seq<char>, Seq<char>>(scheme@),
            Err(message) => parsed_url_scheme(url@) == Err::<Seq<char>, Seq<char>>(message@),
        },
{
    match reqwest::Url::parse(url) {
        Ok(parsed) => Ok(parsed.scheme().to_string()),
        Err(error) => Err(error.to_string()),
    }
}

/// The view of a parse result.
pub open spec fn parse_view(parsed: Result<String, String>) -> Result<Seq<char>, Seq<char>> {
    match parsed {
        Ok(s) => Ok(s@),
        Err(e) => Err(e@),
    }
}

/// Why a monitor with this URL, interval and timeout is refused, or `None`
/// when it is accepted: the URL must parse and use `http` or `https`, and the
/// interval and the timeout must be at least one second.
pub open spec fn validation_message(
    url: Seq<char>,
    parsed: Result<Seq<char>, Seq<char>>,
    check_interval_secs: int,
    timeout_secs: int,
) -> Option<Seq<char>> {
    match parsed {
        Err(e) => Some("Invalid URL '"@ + url + "': "@ + e),
        Ok(scheme) => if scheme != "http"@ && scheme != "https"@ {
            Some("URL '"@ + url + "' must use http or https"@)
        } else if check_interval_secs < 1 {
            Some("Check interval must be at least 1 second"@)
        } else if timeout_secs < 1 {
            Some("Timeout must be at least 1 second"@)
        } else {
            None
        },
    }
}

/// The outcome of validation: `Ok` when accepted, a bad request carrying
/// the reason when refused.
pub open spec fn validation_outcome(r: AppResult<()>, message: Option<Seq<char>>) -> bool {
    match message {
        None => r is Ok,
        Some(m) => r matches Err(AppError::BadRequest(e)) && e@ == m,
    }
}

/// Checks a monitor's URL, given what the URL parser made of it, and its interval
/// and timeout.
pub fn validate_parsed(
    url: &str,
    parsed: Result<String, String>,
    check_interval_secs: i64,
    timeout_secs: i64,
) -> (r: AppResult<()>)
    ensures
        validation_outcome(
            r,
            validation_message(url@, parse_view(parsed), check_interval_secs as int, timeout_secs as int),
        ),
        r matches Err(e) ==> e.status_code() == 400,
{
    match parsed {
        Err(error) => {
            let mut m = owned("Invalid URL '");
            m.append(url);
            m.append("': ");
            m.append(error.as_str());
            Err(AppError::BadRequest(m))
        },
        Ok(scheme) => {
            if !(scheme == owned("http") || scheme == owned("https")) {
                let mut m = owned("URL '");
                m.append(url);
                m.append("' must use http or https");
                Err(AppError::BadRequest(m))
            } else if check_interval_secs < 1 {
                Err(AppError::BadRequest(owned("Check interval must be at least 1 second")))
            } else if timeout_secs < 1 {
                Err(AppError::BadRequest(owned("Timeout must be at least 1 second")))
            } else {
                Ok(())
            }
        },
    }
}

/// Checks a monitor's URL, interval and timeout.
pub fn validate(url: &str, check_interval_secs: i64, timeout_secs: i64) -> (r: AppResult<()>)
    ensures
        validation_outcome(
            r,
            validation_message(url@, parsed_url_scheme(url@), check_interval_secs as int, timeout_secs as int),
        ),
        r matches Err(e) ==> e.status_code() == 400,
{
    let parsed = url_scheme(url);
    validate_parsed(url, parsed, check_interval_secs, timeout_secs)
}

/// The monitor columns as spec values: name, URL, check interval and timeout.
pub type MonitorFields = (Seq<char>, Seq<char>, i64, i64);

/// The view of the columns written for a monitor.
pub open spec fn fields_of(values: MonitorValues) -> MonitorFields {
    (values.name@, values.url@, values.check_interval_secs, values.timeout_secs)
}

/// The columns of a new monitor: the interval and the timeout fall back to the
/// configured defaults.
pub open spec fn created_fields(config: MonitorConfig, input: CreateMonitor) -> MonitorFields {
    (
        input.name@,
        input.url@,
        match input.check_interval_secs {
            Some(v) => v,
            None => config.default_interval_secs,
        },
        match input.timeout_secs {
            Some(v) => v,
            None => config.default_timeout_secs,
        },
    )
}

/// The outcome of preparing columns: accepted columns, or the bad request that
/// validation gives for them.
pub open spec fn prepared(r: AppResult<MonitorValues>, fields: MonitorFields) -> bool {
    let message = validation_message(fields.1, parsed_url_scheme(fields.1), fields.2 as int, fields.3 as int);
    match message {
        None => r matches Ok(values) && fields_of(values) == fields,
        Some(m) => r matches Err(AppError::BadRequest(e)) && e@ == m,
    }
}

/// The columns to insert for a new monitor, after defaults and validation.
pub fn new_monitor_values(config: &MonitorConfig, input: CreateMonitor) -> (r: AppResult<MonitorValues>)
    ensures
        prepared(r, created_fields(*config, input)),
        r matches Err(e) ==> e.status_code() == 400,
{
    let interval = match input.check_interval_secs {
        Some(v) => v,
        None => config.default_interval_secs,
    };
    let timeout = match input.timeout_secs {
        Some(v) => v,
        None => config.default_timeout_secs,
    };
    match validate(input.url.as_str(), interval, timeout) {
        Err(e) => Err(e),
        Ok(()) => Ok(
            MonitorValues {
                name: input.name,
                url: input.url,
                check_interval_secs: interval,
                timeout_secs: timeout,
            },
        ),
    }
}

/// The columns of a monitor after a partial update: each present field
/// replaces the stored one.
pub open spec fn updated_fields(existing: MonitorFields, input: UpdateMonitor) -> MonitorFields {
    (
        match input.name {
            Some(v) => v@,
            None => existing.0,
        },
        match input.url {
            Some(v) => v@,
            None => existing.1,
        },
        match input.check_interval_secs {
            Some(v) => v,
            None => existing.2,
        },
        match input.timeout_secs {
            Some(v) => v,
            None => existing.3,
        },
    )
}

/// The stored columns of a monitor.
pub open spec fn monitor_fields(monitor: Monitor) -> MonitorFields {
    (monitor.name@, monitor.url@, monitor.check_interval_secs, monitor.timeout_secs)
}

/// The columns to write for a monitor after a partial update, after validation.
pub fn updated_monitor_values(existing: Monitor, input: UpdateMonitor) -> (r: AppResult<MonitorValues>)
    ensures
        prepared(r, updated_fields(monitor_fields(existing), input)),
        r matches Err(e) ==> e.status_code() == 400,
{
    let name = match input.name {
        Some(v) => v,
        None => existing.name,
    };
    let url = match input.url {
        Some(v) => v,
        None => existing.url,
    };
    let interval = match input.check_interval_secs {
        Some(v) => v,
        None => existing.check_interval_secs,
    };
    let timeout = match input.timeout_secs {
        Some(v) => v,
        None => existing.timeout_secs,
    };
    match validate(url.as_str(), interval, timeout) {
        Err(e) => Err(e),
        Ok(()) => Ok(MonitorValues { name, url, check_interval_secs: interval, timeout_secs: timeout }),
    }
}

/// The message for a monitor id that names no monitor.
pub open spec fn monitor_not_found_text(id: i64) -> Seq<char> {
    "Monitor "@ + decimal(id as int) + " not found"@
}

/// The error for a monitor id that names no monitor.
pub fn monitor_not_found(id: i64) -> (r: AppError)
    ensures
        r matches AppError::NotFound(m) && m@ == monitor_not_found_text(id),
{
    let mut m = owned("Monitor ");
    m.append(i64_to_decimal(id).as_str());
    m.append(" not found");
    AppError::NotFound(m)
}

/// The answer to deleting monitor `id`, given how many rows the deletion removed:
/// not found when it removed none.
pub fn deletion_outcome(id: i64, rows_affected: u64) -> (r: AppResult<()>)
    ensures
        rows_affected == 0 ==> (r matches Err(AppError::NotFound(m)) && m@ == monitor_not_found_text(id)),
        rows_affected != 0 ==> r is Ok,
{
    if rows_affected == 0 {
        Err(monitor_not_found(id))
    } else {
        Ok(())
    }
}

/// Every monitor the store accepts has an `http` or `https` URL and an interval
/// and a timeout of at least one second.
pub proof fn law_accepted_monitors_are_valid(
    url: Seq<char>,
    parsed: Result<Seq<char>, Seq<char>>,
    check_interval_secs: int,
    timeout_secs: int,
)
    requires
        validation_message(url, parsed, check_interval_secs, timeout_secs) is None,
    ensures
        parsed matches Ok(scheme) && (scheme == "http"@ || scheme == "https"@),
        check_interval_secs >= 1,
        timeout_secs >= 1,
{
}

/// An update that sets no field leaves every column of the monitor as it was.
pub proof fn law_empty_update_keeps_monitor(existing: MonitorFields)
    ensures
        updated_fields(
            existing,
            UpdateMonitor { name: None, url: None, check_interval_secs: None, timeout_secs: None },
        ) == existing,
{
}

/// A partial update writes every field it sets exactly as given, and keeps
/// every field it leaves out as stored.
pub proof fn law_update_writes_given_fields(existing: MonitorFields, input: UpdateMonitor)
    ensures
        input.name matches Some(v) ==> updated_fields(existing, input).0 == v@,
        input.url matches Some(v) ==> updated_fields(existing, input).1 == v@,
        input.check_interval_secs matches Some(v) ==> updated_fields(existing, input).2 == v,
        input.timeout_secs matches Some(v) ==> updated_fields(existing, input).3 == v,
        input.name is None ==> updated_fields(existing, input).0 == existing.0,
        input.url is None ==> updated_fields(existing, input).1 == existing.1,
        input.check_interval_secs is None ==> updated_fields(existing, input).2 == existing.2,
        input.timeout_secs is None ==> updated_fields(existing, input).3 == existing.3,
{
}

/// Validation refuses a monitor exactly when its URL does not parse or does not
/// use `http` or `https`, or its interval or timeout is below one second:
/// every monitor meeting those conditions is accepted.
pub proof fn law_valid_monitors_are_accepted(
    url: Seq<char>,
    parsed: Result<Seq<char>, Seq<char>>,
    check_interval_secs: int,
    timeout_secs: int,
)
    ensures
        validation_message(url, parsed, check_interval_secs, timeout_secs) is None <==> (
        parsed matches Ok(scheme) && (scheme == "http"@ || scheme == "https"@) && check_interval_secs
            >= 1 && timeout_secs >= 1),
{
}

/// Applying the same partial update twice gives what applying it once gives.
pub proof fn law_update_is_idempotent(existing: MonitorFields, input: UpdateMonitor)
    ensures
        updated_fields(updated_fields(existing, input), input) == updated_fields(existing, input),
{
}

/// A field that a create request sets is written as given; one it leaves out
/// takes the configured default.
pub proof fn law_create_uses_given_or_default(config: MonitorConfig, input: CreateMonitor)
    ensures
        input.check_interval_secs is None ==> created_fields(config, input).2 == config.default_interval_secs,
        input.timeout_secs is None ==> created_fields(config, input).3 == config.default_timeout_secs,
        input.check_interval_secs matches Some(v) ==> created_fields(config, input).2 == v,
        input.timeout_secs matches Some(v) ==> created_fields(config, input).3 == v,
{
}

} // verus!
