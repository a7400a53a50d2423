//! Instants and lengths of time as plain integers.

use vstd::prelude::*;

verus! {

/// Nanoseconds in one second.
pub const NANOS_PER_SECOND: u32 = 1_000_000_000;

/// The number of seconds by which a token is treated as expired early.
pub const EXPIRY_BUFFER_SECONDS: i64 = 300;

/// An instant on the UTC time line: whole seconds since the Unix epoch and
/// the nanoseconds past that second.
#[derive(Clone, Copy, Debug, PartialEq, Eq, Structural)]
pub struct Timestamp {
    pub secs: i64,
    pub nanos: u32,
}

/// A length of time in nanoseconds.
#[derive(Clone, Copy, Debug, PartialEq, Eq, Structural)]
pub struct Span {
    pub nanos: i128,
}

impl Timestamp {
    /// Nanoseconds since the Unix epoch.
    pub open spec fn as_nanos(self) -> int {
        self.secs * 1_000_000_000 + self.nanos
    }

    /// The instant `secs` seconds and `nanos` nanoseconds after the epoch.
    pub fn new(secs: i64, nanos: u32) -> (t: Timestamp)
        ensures
            t.secs == secs,
            t.nanos == nanos,
    {
        Timestamp { secs, nanos }
    }

    /// Nanoseconds since the Unix epoch, as a machine integer.
    pub fn total_nanos(&self) -> (n: i128)
        ensures
            n == self.as_nanos(),
    {
        let secs: i128 = self.secs as i128;
        let nanos: i128 = self.nanos as i128;
        secs * 1_000_000_000 + nanos
    }

    /// Whether this instant is at or after `other`.
    pub fn is_at_or_after(&self, other: &Timestamp) -> (r: bool)
        ensures
            r == (self.as_nanos() >= other.as_nanos()),
    {
        self.total_nanos() >= other.total_nanos()
    }
}

impl Span {
    /// The empty span.
    pub fn zero() -> (s: Span)
        ensures
            s.nanos == 0,
    {
        Span { nanos: 0 }
    }

    /// Whole seconds in the span, rounded towards zero.
    pub open spec fn whole_seconds(self) -> int {
        if self.nanos >= 0 {
            self.nanos / 1_000_000_000
        } else {
            -((-self.nanos) / 1_000_000_000)
        }
    }

    /// Whole seconds in the span, rounded towards zero.
    pub fn num_seconds(&self) -> (n: i128)
        ensures
            n == self.whole_seconds(),
    {
        self.nanos / 1_000_000_000
    }

    /// Whole minutes in the span, rounded towards zero.
    pub fn num_minutes(&self) -> (n: i128)
        ensures
            n == truncated_quotient(self.whole_seconds(), 60),
    {
        self.num_seconds() / 60
    }

    /// Whole hours in the span, rounded towards zero.
    pub fn num_hours(&self) -> (n: i128)
        ensures
            n == truncated_quotient(self.whole_seconds(), 3600),
    {
        self.num_seconds() / 3600
    }

    /// Whole days in the span, rounded towards zero.
    pub fn num_days(&self) -> (n: i128)
        ensures
            n == truncated_quotient(self.whole_seconds(), 86400),
    {
        self.num_seconds() / 86400
    }
}

/// `a / b` rounded towards zero, for a positive `b`.
pub open spec fn truncated_quotient(a: int, b: int) -> int
    recommends
        b > 0,
{
    if a >= 0 {
        a / b
    } else {
        -((-a) / b)
    }
}

/// What is left of `a` after `b` was taken out `truncated_quotient(a, b)`
/// times; it has the sign of `a`.
pub open spec fn truncated_remainder(a: int, b: int) -> int
    recommends
        b > 0,
{
    a - b * truncated_quotient(a, b)
}

/// The instant written as `YYYY-MM-DD HH:MM:SS UTC`, if the calendar reaches
/// that far.
pub uninterp spec fn utc_text(secs: i64, nanos: u32) -> Option<Seq<char>>;

/// Writes an instant as date and time of day. `chrono::DateTime::from_timestamp`
/// makes the date, or nothing when the seconds lie outside the calendar or
/// the nanoseconds are not a valid fraction; `DateTime::format` with the
/// pattern `%Y-%m-%d %H:%M:%S UTC` writes it. Both depend on the two numbers
/// alone.
#[verifier::external_body]
pub(crate) fn format_utc(t: Timestamp) -> (r: Option<String>)
    ensures
        match r {
            Some(text) => utc_text(t.secs, t.nanos) == Some(text@),
            None => utc_text(t.secs, t.nanos) is None,
        },
{
    match chrono::DateTime::from_timestamp(t.secs, t.nanos) {
        Some(moment) => Some(moment.format("%Y-%m-%d %H:%M:%S UTC").to_string()),
        None => None,
    }
}

/// Reads the system clock through `chrono::Utc::now` and splits the instant
/// with `DateTime::timestamp` and `DateTime::timestamp_subsec_nanos`. The clock
/// is built from a duration since the epoch, so the sub-second part stays
/// below one second; nothing else is claimed of the reading.
#[verifier::external_body]
pub(crate) fn now_utc() -> (t: Timestamp)
    ensures
        t.nanos < NANOS_PER_SECOND,
{
    let now = chrono::Utc::now();
    Timestamp { secs: now.timestamp(), nanos: now.timestamp_subsec_nanos() }
}

} // verus!
