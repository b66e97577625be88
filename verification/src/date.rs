//! Points in time, and the two grammars in which a feed writes them.

use crate::error::FeedError;
use chrono::{DateTime, Utc};
use vstd::prelude::*;

verus! {

#[verifier::external_type_specification]
#[verifier::external_body]
pub struct ExDateError(chrono::ParseError);

/// A point in time in UTC: the seconds since 1970-01-01T00:00:00Z, leap seconds
/// not counted, and the nanoseconds into that second.
#[derive(Debug, Clone, Copy, PartialEq, Eq, Structural, PartialOrd, Ord, Hash)]
pub struct Timestamp {
    pub secs: i64,
    pub nanos: u32,
}

/// The instant that `DateTime::parse_from_rfc2822` reads in a text such as
/// `Wed, 02 Oct 2024 15:00:00 +0000`, or `None` where it reports an error.
pub uninterp spec fn rfc2822_instant(text: Seq<char>) -> Option<Timestamp>;

/// The instant that `DateTime::parse_from_rfc3339` reads in a text such as
/// `2024-10-02T15:00:00Z`, or `None` where it reports an error.
pub uninterp spec fn rfc3339_instant(text: Seq<char>) -> Option<Timestamp>;

/// The text that `DateTime::to_rfc3339` writes for an instant, or `None` where
/// `DateTime::from_timestamp` has no date for it.
pub uninterp spec fn rfc3339_text(secs: int, nanos: int) -> Option<Seq<char>>;

/// The calendar day in UTC of an instant as `NaiveDate` prints it, or `None`
/// where `DateTime::from_timestamp` has no date for it.
pub uninterp spec fn day_text(secs: int, nanos: int) -> Option<Seq<char>>;

/// An instant as `DateTime<Utc>` prints it, or `None` where
/// `DateTime::from_timestamp` has no date for it.
pub uninterp spec fn instant_text(secs: int, nanos: int) -> Option<Seq<char>>;

/// The instant that a timestamp text stands for: read as RFC 2822 first and,
/// where that fails, as RFC 3339.
pub open spec fn instant_of(text: Seq<char>) -> Option<Timestamp> {
    match rfc2822_instant(text) {
        Some(t) => Some(t),
        None => rfc3339_instant(text),
    }
}

/// `DateTime::parse_from_rfc2822`, the result moved to UTC and taken apart with
/// `timestamp` and `timestamp_subsec_nanos`. It is a function of the text alone,
/// named [`rfc2822_instant`].
#[verifier::external_body]
pub(crate) fn parse_rfc2822(text: &str) -> (r: Result<Timestamp, chrono::ParseError>)
    ensures
        match r {
            Ok(t) => rfc2822_instant(text@) == Some(t),
            Err(_) => rfc2822_instant(text@) is None,
        },
{
    let at = DateTime::parse_from_rfc2822(text)?.with_timezone(&Utc);
    Ok(Timestamp { secs: at.timestamp(), nanos: at.timestamp_subsec_nanos() })
}

/// `DateTime::parse_from_rfc3339`, the result moved to UTC and taken apart with
/// `timestamp` and `timestamp_subsec_nanos`. It is a function of the text alone,
/// named [`rfc3339_instant`].
#[verifier::external_body]
pub(crate) fn parse_rfc3339(text: &str) -> (r: Result<Timestamp, chrono::ParseError>)
    ensures
        match r {
            Ok(t) => rfc3339_instant(text@) == Some(t),
            Err(_) => rfc3339_instant(text@) is None,
        },
{
    let at = DateTime::parse_from_rfc3339(text)?.with_timezone(&Utc);
    Ok(Timestamp { secs: at.timestamp(), nanos: at.timestamp_subsec_nanos() })
}

/// `DateTime::to_rfc3339` on the `DateTime<Utc>` that `DateTime::from_timestamp`
/// makes of the instant. The result is named [`rfc3339_text`].
#[verifier::external_body]
pub(crate) fn write_rfc3339(at: Timestamp) -> (r: Option<String>)
    ensures
        match r {
            Some(text) => rfc3339_text(at.secs as int, at.nanos as int) == Some(text@),
            None => rfc3339_text(at.secs as int, at.nanos as int) is None,
        },
{
    DateTime::from_timestamp(at.secs, at.nanos).map(|d| d.to_rfc3339())
}

/// `DateTime::date_naive`, printed, on the `DateTime<Utc>` that
/// `DateTime::from_timestamp` makes of the instant. The result is named [`day_text`].
#[verifier::external_body]
pub(crate) fn write_day(at: Timestamp) -> (r: Option<String>)
    ensures
        match r {
            Some(text) => day_text(at.secs as int, at.nanos as int) == Some(text@),
            None => day_text(at.secs as int, at.nanos as int) is None,
        },
{
    DateTime::from_timestamp(at.secs, at.nanos).map(|d| d.date_naive().to_string())
}

/// The `DateTime<Utc>` that `DateTime::from_timestamp` makes of the instant,
/// printed. The result is named [`instant_text`].
#[verifier::external_body]
pub(crate) fn write_instant(at: Timestamp) -> (r: Option<String>)
    ensures
        match r {
            Some(text) => instant_text(at.secs as int, at.nanos as int) == Some(text@),
            None => instant_text(at.secs as int, at.nanos as int) is None,
        },
{
    DateTime::from_timestamp(at.secs, at.nanos).map(|d| d.to_string())
}

/// Reads a timestamp in either grammar and gives the instant in UTC.
pub fn normalize_date(text: &str) -> (r: Result<Timestamp, FeedError>)
    ensures
        r == match instant_of(text@) {
            Some(t) => Ok::<Timestamp, FeedError>(t),
            None => Err::<Timestamp, FeedError>(FeedError::InvalidDate),
        },
{
    match parse_rfc2822(text) {
        Ok(t) => Ok(t),
        Err(_) => match parse_rfc3339(text) {
            Ok(t) => Ok(t),
            Err(_) => Err(FeedError::InvalidDate),
        },
    }
}

} // verus!
