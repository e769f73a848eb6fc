//! Instants and the time between them, as the chrono crate reads,
//! writes and subtracts them.
//!
//! Everything that is taken on trust from chrono stands in this file:
//! four calls, each behind a function whose contract says no more than
//! that the result depends on the arguments alone, or nothing at all.

use crate::host::optional_text;
use chrono::format::ParseErrorKind;
use chrono::{DateTime, Utc};
use vstd::prelude::*;

verus! {

/// A point in time: the whole seconds since 1970-01-01 00:00:00 UTC, and
/// the nanoseconds past that second.
#[derive(Debug, Clone, Copy, PartialEq, Eq)]
pub struct Instant {
    pub secs: i64,
    pub nanos: u32,
}

/// The time from one instant to a later one: whole seconds, and the
/// nanoseconds beyond them. Both are negative or zero where the second
/// instant is the earlier one.
#[derive(Debug, Clone, Copy, PartialEq, Eq)]
pub struct Elapsed {
    pub secs: i64,
    pub nanos: i32,
}

/// Why a text is no timestamp.
#[derive(Debug, Clone, Copy, PartialEq, Eq)]
pub enum TimestampFault {
    OutOfRange,
    Impossible,
    NotEnough,
    Invalid,
    TooShort,
    TooLong,
    BadFormat,
    Other,
}

/// The instant that chrono reads from `text` as a timestamp with a zone
/// offset, a date and a time separated by `T` or a space, or why it reads
/// none.
pub uninterp spec fn rfc3339_instant(text: Seq<char>) -> Result<Instant, TimestampFault>;

/// The time that chrono finds from `earlier` to `later`, or nothing where
/// one of the two is outside the dates chrono can hold.
pub uninterp spec fn time_between(later: Instant, earlier: Instant) -> Option<Elapsed>;

/// `instant` as chrono writes it in RFC 3339 with the offset `+00:00`, or
/// nothing where it is outside the dates chrono can hold.
pub uninterp spec fn rfc3339_text(instant: Instant) -> Option<Seq<char>>;

/// Calls chrono's `FromStr` for `DateTime<Utc>`, which parses a relaxed
/// RFC 3339 timestamp and moves it to UTC. The result is taken as seconds
/// and nanoseconds since the epoch through `timestamp` and
/// `timestamp_subsec_nanos`, the error as its `kind`. Nothing is claimed
/// beyond that the result is a function of the text.
#[verifier::external_body]
pub(crate) fn parse_instant(text: &str) -> (parsed: Result<Instant, TimestampFault>)
    ensures
        parsed == rfc3339_instant(text@),
{
    match text.parse::<DateTime<Utc>>() {
        Ok(at) => Ok(Instant { secs: at.timestamp(), nanos: at.timestamp_subsec_nanos() }),
        Err(error) => Err(match error.kind() {
            ParseErrorKind::OutOfRange => TimestampFault::OutOfRange,
            ParseErrorKind::Impossible => TimestampFault::Impossible,
            ParseErrorKind::NotEnough => TimestampFault::NotEnough,
            ParseErrorKind::Invalid => TimestampFault::Invalid,
            ParseErrorKind::TooShort => TimestampFault::TooShort,
            ParseErrorKind::TooLong => TimestampFault::TooLong,
            ParseErrorKind::BadFormat => TimestampFault::BadFormat,
            _ => TimestampFault::Other,
        }),
    }
}

/// Calls chrono's `DateTime::signed_duration_since` on the two instants,
/// each rebuilt with `DateTime::from_timestamp`. The result is taken as
/// `num_seconds` and `subsec_nanos`. Nothing is claimed beyond that the
/// result is a function of the two instants.
#[verifier::external_body]
pub(crate) fn elapsed_between(later: &Instant, earlier: &Instant) -> (elapsed: Option<Elapsed>)
    ensures
        elapsed == time_between(*later, *earlier),
{
    let later = DateTime::from_timestamp(later.secs, later.nanos)?;
    let earlier = DateTime::from_timestamp(earlier.secs, earlier.nanos)?;
    let delta = later.signed_duration_since(earlier);
    Some(Elapsed { secs: delta.num_seconds(), nanos: delta.subsec_nanos() })
}

/// Calls chrono's `DateTime::to_rfc3339` on the instant, rebuilt with
/// `DateTime::from_timestamp`. Nothing is claimed beyond that the result
/// is a function of the instant.
#[verifier::external_body]
pub(crate) fn format_instant(instant: &Instant) -> (text: Option<String>)
    ensures
        optional_text(text) == rfc3339_text(*instant),
{
    let moment = DateTime::from_timestamp(instant.secs, instant.nanos)?;
    Some(moment.to_rfc3339())
}

/// Calls chrono's `Utc::now`, which reads the system clock, and takes
/// the result as seconds and nanoseconds since the epoch. Nothing is
/// claimed of the result: two calls may differ. chrono gives up where
/// the system clock stands before 1970.
#[verifier::external_body]
pub(crate) fn current_instant() -> Instant {
    let now = Utc::now();
    Instant { secs: now.timestamp(), nanos: now.timestamp_subsec_nanos() }
}

/// What is said of a text that is no timestamp.
pub open spec fn fault_text(fault: TimestampFault) -> Seq<char> {
    match fault {
        TimestampFault::OutOfRange => "input is out of range"@,
        TimestampFault::Impossible => "no possible date and time matching input"@,
        TimestampFault::NotEnough => "input is not enough for unique date and time"@,
        TimestampFault::Invalid => "input contains invalid characters"@,
        TimestampFault::TooShort => "premature end of input"@,
        TimestampFault::TooLong => "trailing input"@,
        TimestampFault::BadFormat => "bad or unsupported format string"@,
        TimestampFault::Other => "input is no timestamp"@,
    }
}

/// Says why a text is no timestamp.
pub fn describe_fault(fault: TimestampFault) -> (text: String)
    ensures
        text@ == fault_text(fault),
{
    match fault {
        TimestampFault::OutOfRange => String::from_str("input is out of range"),
        TimestampFault::Impossible => String::from_str("no possible date and time matching input"),
        TimestampFault::NotEnough => String::from_str(
            "input is not enough for unique date and time",
        ),
        TimestampFault::Invalid => String::from_str("input contains invalid characters"),
        TimestampFault::TooShort => String::from_str("premature end of input"),
        TimestampFault::TooLong => String::from_str("trailing input"),
        TimestampFault::BadFormat => String::from_str("bad or unsupported format string"),
        TimestampFault::Other => String::from_str("input is no timestamp"),
    }
}

} // verus!
