//! Points in time, held as a UNIX timestamp (seconds and the nanoseconds past them),
//! with the calendar work done by `chrono`.
use vstd::prelude::*;

verus! {

/// Whether `chrono::DateTime::<Utc>::from_timestamp(secs, nanos)` gives a date and time.
pub uninterp spec fn utc_representable(secs: i64, nanos: u32) -> bool;

/// The text of `chrono`'s strftime-style formatting of the UTC date and time
/// at `secs` and `nanos`, under `pattern`.
pub uninterp spec fn utc_formatted(secs: i64, nanos: u32, pattern: Seq<char>) -> Seq<char>;

/// `chrono`'s `(later - earlier).num_seconds()` for the two UTC date-times.
pub uninterp spec fn utc_whole_seconds_between(
    later_secs: i64,
    later_nanos: u32,
    earlier_secs: i64,
    earlier_nanos: u32,
) -> i64;

/// Nanoseconds in one second.
pub open spec fn nanos_per_second() -> int {
    1_000_000_000
}

/// The number of whole seconds in a span of `nanos` nanoseconds, rounded towards zero.
pub open spec fn whole_seconds_of(nanos: int) -> int {
    if nanos >= 0 {
        nanos / nanos_per_second()
    } else {
        -((-nanos) / nanos_per_second())
    }
}

/// The strftime pattern for a full date and time, as shown for a monitor's last check.
pub open spec fn date_time_pattern() -> Seq<char> {
    "%Y-%m-%d %H:%M:%S"@
}

/// The strftime pattern for a time of day, as shown under a response-time chart.
pub open spec fn time_of_day_pattern() -> Seq<char> {
    "%H:%M:%S"@
}

/// Calls `chrono::DateTime::<Utc>::from_timestamp` and reports whether it returned a value.
#[verifier::external_body]
fn utc_datetime_exists(secs: i64, nanos: u32) -> (r: bool)
    ensures
        r == utc_representable(secs, nanos),
{
    chrono::DateTime::<chrono::Utc>::from_timestamp(secs, nanos).is_some()
}

/// Reads the clock through `chrono::Utc::now` and returns the timestamp and
/// sub-second nanoseconds of the result. `chrono` documents that these round-trip
/// through `DateTime::from_timestamp`; nothing else is claimed of the reading.
#[verifier::external_body]
fn utc_now_parts() -> (r: (i64, u32))
    ensures
        utc_representable(r.0, r.1),
{
    let now = chrono::Utc::now();
    (now.timestamp(), now.timestamp_subsec_nanos())
}

/// Formats a UTC date-time with `chrono`'s `DateTime::format(pattern).to_string()`.
/// Only the two patterns of this library are admitted; both are valid strftime
/// patterns, so the formatting cannot fail.
#[verifier::external_body]
fn utc_format(secs: i64, nanos: u32, pattern: &str) -> (r: String)
    requires
        utc_representable(secs, nanos),
        pattern@ == date_time_pattern() || pattern@ == time_of_day_pattern(),
    ensures
        r@ == utc_formatted(secs, nanos, pattern@),
{
    chrono::DateTime::<chrono::Utc>::from_timestamp(secs, nanos)
        .expect("a representable timestamp")
        .format(pattern)
        .to_string()
}

/// Subtracts two UTC date-times with `chrono` and takes `num_seconds` of the
/// difference. Away from leap seconds (sub-second nanoseconds below one second)
/// `chrono` measures the exact elapsed time and `num_seconds` rounds it towards zero.
#[verifier::external_body]
fn utc_seconds_between(later_secs: i64, later_nanos: u32, earlier_secs: i64, earlier_nanos: u32) -> (r: i64)
    requires
        utc_representable(later_secs, later_nanos),
        utc_representable(earlier_secs, earlier_nanos),
    ensures
        r == utc_whole_seconds_between(later_secs, later_nanos, earlier_secs, earlier_nanos),
        later_nanos < nanos_per_second() && earlier_nanos < nanos_per_second() ==> r
            == whole_seconds_of(
            (later_secs - earlier_secs) * nanos_per_second() + later_nanos - earlier_nanos,
        ),
{
    let later = chrono::DateTime::<chrono::Utc>::from_timestamp(later_secs, later_nanos)
        .expect("a representable timestamp");
    let earlier = chrono::DateTime::<chrono::Utc>::from_timestamp(earlier_secs, earlier_nanos)
        .expect("a representable timestamp");
    (later - earlier).num_seconds()
}

/// Which of the library's two date and time layouts to render.
#[derive(Clone, Copy, Debug, PartialEq, Eq, Structural)]
pub enum TimeLayout {
    /// `%Y-%m-%d %H:%M:%S`
    DateTime,
    /// `%H:%M:%S`
    TimeOfDay,
}

/// The strftime pattern of a layout.
pub open spec fn layout_pattern(layout: TimeLayout) -> Seq<char> {
    match layout {
        TimeLayout::DateTime => date_time_pattern(),
        TimeLayout::TimeOfDay => time_of_day_pattern(),
    }
}

/// A UTC point in time: seconds since the UNIX epoch and the nanoseconds past them.
/// Every value names a date and time that `chrono` can represent.
#[derive(Clone, Copy, Debug, PartialEq, Eq)]
pub struct Timestamp {
    secs: i64,
    nanos: u32,
}

impl View for Timestamp {
    type V = (i64, u32);

    closed spec fn view(&self) -> (i64, u32) {
        (self.secs, self.nanos)
    }
}

impl Timestamp {
    #[verifier::type_invariant]
    spec fn representable(self) -> bool {
        utc_representable(self.secs, self.nanos)
    }

    /// The timestamp for `secs` seconds and `nanos` nanoseconds after the UNIX epoch,
    /// when `chrono` can represent that date and time.
    pub fn from_unix(secs: i64, nanos: u32) -> (r: Option<Timestamp>)
        ensures
            r is Some <==> utc_representable(secs, nanos),
            r matches Some(t) ==> t@ == (secs, nanos),
    {
        if utc_datetime_exists(secs, nanos) {
            Some(Timestamp { secs, nanos })
        } else {
            None
        }
    }

    /// Reads the clock.
    pub fn read_clock() -> (r: ClockReading)
        ensures
            utc_representable(r.moment()@.0, r.moment()@.1),
    {
        let (secs, nanos) = utc_now_parts();
        ClockReading { at: Timestamp { secs, nanos } }
    }

    /// The current time.
    pub fn now() -> (r: Timestamp)
        ensures
            utc_representable(r@.0, r@.1),
    {
        let reading = Timestamp::read_clock();
        reading.time()
    }

    /// Seconds since the UNIX epoch.
    pub fn unix_seconds(&self) -> (r: i64)
        ensures
            r == self@.0,
    {
        self.secs
    }

    /// Nanoseconds past the whole second.
    pub fn subsec_nanos(&self) -> (r: u32)
        ensures
            r == self@.1,
    {
        self.nanos
    }

    /// This point in time rendered in the given layout.
    pub fn format(&self, layout: TimeLayout) -> (r: String)
        ensures
            r@ == utc_formatted(self@.0, self@.1, layout_pattern(layout)),
    {
        proof {
            use_type_invariant(self);
        }
        match layout {
            TimeLayout::DateTime => utc_format(self.secs, self.nanos, "%Y-%m-%d %H:%M:%S"),
            TimeLayout::TimeOfDay => utc_format(self.secs, self.nanos, "%H:%M:%S"),
        }
    }

    /// The whole seconds from `earlier` to this point in time, rounded towards zero.
    pub fn whole_seconds_since(&self, earlier: &Timestamp) -> (r: i64)
        ensures
            r == utc_whole_seconds_between(self@.0, self@.1, earlier@.0, earlier@.1),
            self@.1 < nanos_per_second() && earlier@.1 < nanos_per_second() ==> r
                == whole_seconds_of(
                (self@.0 - earlier@.0) * nanos_per_second() + self@.1 - earlier@.1,
            ),
    {
        proof {
            use_type_invariant(self);
            use_type_invariant(earlier);
        }
        utc_seconds_between(self.secs, self.nanos, earlier.secs, earlier.nanos)
    }
}

/// A moment reported by the system clock. Only `Timestamp::read_clock` makes
/// one, so every value of this type outside this module is a clock reading.
pub struct ClockReading {
    at: Timestamp,
}

impl ClockReading {
    /// The moment the clock reported.
    pub closed spec fn moment(self) -> Timestamp {
        self.at
    }

    /// The moment the clock reported.
    pub fn time(&self) -> (r: Timestamp)
        ensures
            r == self.moment(),
    {
        self.at
    }
}

} // verus!
