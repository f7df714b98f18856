//! Points in time, held as milliseconds since the Unix epoch, and their text forms.
use vstd::prelude::*;
use crate::text::string_of;
use crate::text::chars_of;

verus! {

/// A point in time: milliseconds since 1970-01-01T00:00:00Z, the precision that MongoDB
/// stores dates with; parts of a millisecond are dropped when a time is read.
pub type DateTime = i64;

/// Why a text is not a date.
#[derive(Debug, Clone, PartialEq, Eq)]
pub struct ParseError {
    pub message: String,
}

/// `chrono::Utc::now().timestamp_millis()`: the current time. Which time comes out is
/// left open.
#[verifier::external_body]
fn current_millis() -> (r: i64) {
    chrono::Utc::now().timestamp_millis()
}

/// The current time.
pub fn now() -> DateTime {
    current_millis()
}

/// `chrono::Local::now().timestamp()`: the current time in whole seconds since the epoch.
/// Which time comes out is left open. `Utc::now`, under it, stops on a system time before
/// the epoch, and chrono's dates stay within about 262 000 years of the common era, so
/// the value is not negative and is below 10^13.
#[verifier::external_body]
pub(crate) fn current_seconds() -> (r: i64)
    ensures
        -10_000_000_000_000 <= r <= 10_000_000_000_000,
        0 <= r,
{
    chrono::Local::now().timestamp()
}

/// What chrono's RFC 3339 form (milliseconds, `Z` for UTC) of a point in time is, or
/// `None` where the point is outside chrono's range of dates.
pub uninterp spec fn rfc3339_millis(ms: i64) -> Option<Seq<char>>;

/// `chrono::DateTime::from_timestamp_millis` followed by
/// `to_rfc3339_opts(SecondsFormat::Millis, true)`.
#[verifier::external_body]
fn format_rfc3339(ms: i64) -> (r: Option<String>)
    ensures
        match r {
            Some(s) => rfc3339_millis(ms) == Some(s@),
            None => rfc3339_millis(ms) is None,
        },
{
    match chrono::DateTime::from_timestamp_millis(ms) {
        Some(d) => Some(d.to_rfc3339_opts(chrono::SecondsFormat::Millis, true)),
        None => None,
    }
}

/// The RFC 3339 text of a point in time, with milliseconds and `Z`; `None` for a point
/// outside the range of dates that chrono can write.
pub fn to_rfc3339(date: DateTime) -> (r: Option<String>)
    ensures
        match r {
            Some(s) => rfc3339_millis(date) == Some(s@),
            None => rfc3339_millis(date) is None,
        },
{
    format_rfc3339(date)
}

/// What `chrono::DateTime::parse_from_rfc3339` gives for a text, as milliseconds.
pub uninterp spec fn rfc3339_parse(s: Seq<char>) -> Option<i64>;

/// `chrono::DateTime::parse_from_rfc3339`, the result converted to UTC milliseconds.
#[verifier::external_body]
fn parse_rfc3339(s: &str) -> (r: Result<i64, ParseError>)
    ensures
        match r {
            Ok(ms) => rfc3339_parse(s@) == Some(ms),
            Err(_) => rfc3339_parse(s@) is None,
        },
{
    match chrono::DateTime::parse_from_rfc3339(s) {
        Ok(d) => Ok(d.timestamp_millis()),
        Err(e) => Err(ParseError { message: e.to_string() }),
    }
}

/// Reads an RFC 3339 text as a point in time.
pub fn from_rfc3339(date: &str) -> (r: Result<DateTime, ParseError>)
    ensures
        match r {
            Ok(ms) => rfc3339_parse(date@) == Some(ms),
            Err(_) => rfc3339_parse(date@) is None,
        },
{
    parse_rfc3339(date)
}

/// What `chrono::DateTime::parse_from_str` gives for a text and a format, as milliseconds.
pub uninterp spec fn parse_with_format(s: Seq<char>, fmt: Seq<char>) -> Option<i64>;

/// `chrono::DateTime::parse_from_str`, the result converted to UTC milliseconds.
#[verifier::external_body]
fn parse_from_str(s: &str, fmt: &str) -> (r: Result<i64, ParseError>)
    ensures
        match r {
            Ok(ms) => parse_with_format(s@, fmt@) == Some(ms),
            Err(_) => parse_with_format(s@, fmt@) is None,
        },
{
    match chrono::DateTime::parse_from_str(s, fmt) {
        Ok(d) => Ok(d.timestamp_millis()),
        Err(e) => Err(ParseError { message: e.to_string() }),
    }
}

/// The text that a year-month-day date is read from: the date at midnight UTC.
pub open spec fn ymd_midnight(ymd: Seq<char>) -> Seq<char> {
    ymd + " 00:00:00 +0000"@
}

/// Reads a year-month-day date (ISO 8601, such as 2001-07-08) as midnight UTC of that day.
pub fn from_ymd(ymd: &str) -> (r: Result<DateTime, ParseError>)
    ensures
        match r {
            Ok(ms) => parse_with_format(ymd_midnight(ymd@), "%Y-%m-%d %H:%M:%S %z"@) == Some(ms),
            Err(_) => parse_with_format(ymd_midnight(ymd@), "%Y-%m-%d %H:%M:%S %z"@) is None,
        },
{
    let date = string_of(&chars_of(ymd)).concat(" 00:00:00 +0000");
    parse_from_str(date.as_str(), "%Y-%m-%d %H:%M:%S %z")
}

} // verus!
