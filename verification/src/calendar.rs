//! The calendar: what `chrono` reads from text and writes as text.
//!
//! Nothing in this module is proved. Each function makes one call into
//! `chrono`, and its contract gives the call's result a name that the rest
//! of the library reasons with.

use chrono::{DateTime, Datelike, NaiveDate, NaiveDateTime, Utc};
use vstd::prelude::*;

verus! {

/// The earliest instant `chrono` can hold: midnight on 1 January of the
/// year -262143, in milliseconds from the epoch.
pub const MIN_MILLIS: i64 = -8_334_601_228_800_000;

/// The latest instant `chrono` can hold to the millisecond: the end of
/// 31 December of the year 262142.
pub const MAX_MILLIS: i64 = 8_210_266_876_799_999;

/// The number `chrono` gives to 1 January 1970 when it counts days from
/// 1 January of the year 1 as day 1.
pub const EPOCH_DAY_NUMBER: i64 = 719_163;

/// Whether a millisecond count lies inside the span the calendar can name.
pub open spec fn in_calendar_range(millis: int) -> bool {
    MIN_MILLIS <= millis <= MAX_MILLIS
}

/// The renderings that the library asks of `strftime_text`.
pub open spec fn is_rendering_format(format: Seq<char>) -> bool {
    format == "%c"@ || format == "%v %r"@ || format == "%F"@
}

/// What `DateTime::parse_from_rfc3339` makes of a text: the UTC
/// millisecond count of the date and time read, or nothing on an error.
pub uninterp spec fn rfc3339_millis(text: Seq<char>) -> Option<i64>;

/// What `DateTime::parse_from_rfc2822` makes of a text: the UTC
/// millisecond count of the date and time read, or nothing on an error.
pub uninterp spec fn rfc2822_millis(text: Seq<char>) -> Option<i64>;

/// What `DateTime::parse_from_str` makes of a text under a format that
/// carries an offset: the UTC millisecond count, or nothing on an error.
pub uninterp spec fn offset_datetime_millis(text: Seq<char>, format: Seq<char>) -> Option<i64>;

/// What `NaiveDateTime::parse_from_str` makes of a text under a format
/// without an offset, the fields taken as UTC: the millisecond count, or
/// nothing on an error.
pub uninterp spec fn naive_datetime_millis(text: Seq<char>, format: Seq<char>) -> Option<i64>;

/// What `NaiveDate::parse_from_str` makes of a text: the number of the day
/// read, counted from 1 January of the year 1 as day 1, or nothing on an
/// error.
pub uninterp spec fn naive_date_day_number(text: Seq<char>, format: Seq<char>) -> Option<i32>;

/// The text `DateTime::<Utc>::to_rfc3339` writes for an instant.
pub uninterp spec fn rfc3339_text(millis: int) -> Seq<char>;

/// The text `DateTime::<Utc>::to_rfc2822` writes for an instant.
pub uninterp spec fn rfc2822_text(millis: int) -> Seq<char>;

/// The text `DateTime::<Utc>::format` writes for an instant under a format.
pub uninterp spec fn strftime_text(millis: int, format: Seq<char>) -> Seq<char>;

/// The calendar year that `Datelike::year` reports for an instant in UTC.
pub uninterp spec fn utc_year(millis: int) -> int;

/// Calls `DateTime::parse_from_rfc3339` and converts what it read to UTC
/// milliseconds. The contract only names the result.
#[verifier::external_body]
pub(crate) fn parse_rfc3339(text: &str) -> (found: Option<i64>)
    ensures
        found == rfc3339_millis(text@),
{
    match DateTime::parse_from_rfc3339(text) {
        Ok(read) => Some(read.with_timezone(&Utc).timestamp_millis()),
        Err(_) => None,
    }
}

/// Calls `DateTime::parse_from_rfc2822` and converts what it read to UTC
/// milliseconds. The contract only names the result.
#[verifier::external_body]
pub(crate) fn parse_rfc2822(text: &str) -> (found: Option<i64>)
    ensures
        found == rfc2822_millis(text@),
{
    match DateTime::parse_from_rfc2822(text) {
        Ok(read) => Some(read.with_timezone(&Utc).timestamp_millis()),
        Err(_) => None,
    }
}

/// Calls `DateTime::parse_from_str`, which wants an offset in the text,
/// and converts what it read to UTC milliseconds. The contract only names
/// the result.
#[verifier::external_body]
pub(crate) fn parse_offset_datetime(text: &str, format: &str) -> (found: Option<i64>)
    ensures
        found == offset_datetime_millis(text@, format@),
{
    match DateTime::parse_from_str(text, format) {
        Ok(read) => Some(read.with_timezone(&Utc).timestamp_millis()),
        Err(_) => None,
    }
}

/// Calls `NaiveDateTime::parse_from_str`, which reads no offset, and takes
/// the fields it read as UTC. The contract only names the result.
#[verifier::external_body]
pub(crate) fn parse_naive_datetime(text: &str, format: &str) -> (found: Option<i64>)
    ensures
        found == naive_datetime_millis(text@, format@),
{
    match NaiveDateTime::parse_from_str(text, format) {
        Ok(read) => Some(read.and_utc().timestamp_millis()),
        Err(_) => None,
    }
}

/// Calls `NaiveDate::parse_from_str` and hands back the number of the day
/// it read, as `Datelike::num_days_from_ce` counts it. The contract only
/// names the result.
#[verifier::external_body]
pub(crate) fn parse_naive_date(text: &str, format: &str) -> (found: Option<i32>)
    ensures
        found == naive_date_day_number(text@, format@),
{
    match NaiveDate::parse_from_str(text, format) {
        Ok(read) => Some(read.num_days_from_ce()),
        Err(_) => None,
    }
}

/// Calls `DateTime::<Utc>::to_rfc3339`. The instant must be one that
/// `DateTime::from_timestamp_millis` accepts; the contract only names the
/// text.
#[verifier::external_body]
pub(crate) fn write_rfc3339(millis: i64) -> (text: String)
    requires
        in_calendar_range(millis as int),
    ensures
        text@ == rfc3339_text(millis as int),
{
    DateTime::from_timestamp_millis(millis).unwrap().to_rfc3339()
}

/// Calls `DateTime::<Utc>::to_rfc2822`, which panics outside the years 0
/// to 9999: those are left out. The contract only names the text.
#[verifier::external_body]
pub(crate) fn write_rfc2822(millis: i64) -> (text: String)
    requires
        in_calendar_range(millis as int),
        0 <= utc_year(millis as int) <= 9999,
    ensures
        text@ == rfc2822_text(millis as int),
{
    DateTime::from_timestamp_millis(millis).unwrap().to_rfc2822()
}

/// Calls `DateTime::<Utc>::format` and collects what it displays. A format
/// that `chrono` rejects would panic there, so only the library's own
/// renderings are let in. The contract only names the text.
#[verifier::external_body]
pub(crate) fn write_formatted(millis: i64, format: &str) -> (text: String)
    requires
        in_calendar_range(millis as int),
        is_rendering_format(format@),
    ensures
        text@ == strftime_text(millis as int, format@),
{
    DateTime::from_timestamp_millis(millis).unwrap().format(format).to_string()
}

/// Calls `Datelike::year` on the instant in UTC. The contract only names
/// the year.
#[verifier::external_body]
pub(crate) fn year_of(millis: i64) -> (year: i32)
    requires
        in_calendar_range(millis as int),
    ensures
        year == utc_year(millis as int),
{
    DateTime::from_timestamp_millis(millis).unwrap().year()
}

} // verus!
