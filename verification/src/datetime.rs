//! The calls into `chrono` that turn date text into timestamps and
//! timestamps into date text, with what `chrono` promises of them stated
//! over the calendar model of `crate::calendar`.
use chrono::format::ParseErrorKind;
use chrono::{DateTime, Datelike, NaiveDate, NaiveDateTime};
use vstd::prelude::*;

use crate::calendar::{
    date_of_day, days_from_civil, dmy_date_text, first_supported_day, iso_date_text,
    is_iso_date_text, is_supported_date, is_supported_timestamp, last_supported_day,
};

verus! {

/// Why a date text could not be read.
#[derive(Debug, Clone, Copy, PartialEq, Eq, Structural)]
pub enum DateParseErrorKind {
    /// A field holds a value out of its range.
    OutOfRange,
    /// The fields name no date.
    Impossible,
    /// The fields do not determine a date.
    NotEnough,
    /// The text holds characters that the format does not allow.
    Invalid,
    /// The text ends too early.
    TooShort,
    /// The text goes on after the format is done.
    TooLong,
    /// The format itself is malformed.
    BadFormat,
}

/// A date text that could not be read: why, and the message that
/// describes it.
#[derive(Debug)]
pub struct DateParseError {
    pub kind: DateParseErrorKind,
    pub message: String,
}

/// The message that describes a date parsing failure of the given kind.
pub open spec fn parse_error_text(kind: DateParseErrorKind) -> Seq<char> {
    match kind {
        DateParseErrorKind::OutOfRange => "input is out of range"@,
        DateParseErrorKind::Impossible => "no possible date and time matching input"@,
        DateParseErrorKind::NotEnough => "input is not enough for unique date and time"@,
        DateParseErrorKind::Invalid => "input contains invalid characters"@,
        DateParseErrorKind::TooShort => "premature end of input"@,
        DateParseErrorKind::TooLong => "trailing input"@,
        DateParseErrorKind::BadFormat => "bad or unsupported format string"@,
    }
}

/// The format that writes a date as year, month and day, e.g. `2024-03-15`.
pub open spec fn iso_format() -> Seq<char> {
    "%Y-%m-%d"@
}

/// The format that writes a date as day, month and year, e.g. `15-03-2024`.
pub open spec fn dmy_format() -> Seq<char> {
    "%d-%m-%Y"@
}

/// What `chrono::NaiveDate::parse_from_str` reads from a text with a format:
/// the date as (year, month, day), or why it failed.
pub uninterp spec fn chrono_parse_date(s: Seq<char>, fmt: Seq<char>) -> Result<
    (i32, u32, u32),
    DateParseErrorKind,
>;

/// The date text of a timestamp's day in the `%Y-%m-%d` format.
pub open spec fn iso_text_of_timestamp(ts: int) -> Seq<char> {
    let t = date_of_day(ts / 86400);
    iso_date_text(t.0, t.1, t.2)
}

/// The date text of a timestamp's day in the `%d-%m-%Y` format.
pub open spec fn dmy_text_of_timestamp(ts: int) -> Seq<char> {
    let t = date_of_day(ts / 86400);
    dmy_date_text(t.0, t.1, t.2)
}

/// Calls `chrono::NaiveDate::parse_from_str(s, fmt)` and hands back the
/// date as (year, month, day), or the kind and message of the error.
///
/// Trusted: the result is `chrono_parse_date` of the text and format; a
/// date that comes back lies in chrono's range; the message of an error is
/// chrono's `Display` text for its kind; and, for the format `%Y-%m-%d`, the
/// text that chrono's own `%Y-%m-%d` formatting writes for a supported date
/// is read back as that date (chrono reads a signed year of any width, and
/// up to four digits for an unsigned one).
#[verifier::external_body]
pub(crate) fn chrono_parse_from_str(s: &str, fmt: &str) -> (r: Result<(i32, u32, u32), DateParseError>)
    ensures
        match r {
            Ok(t) => chrono_parse_date(s@, fmt@) == Ok::<(i32, u32, u32), DateParseErrorKind>(t),
            Err(e) => chrono_parse_date(s@, fmt@) == Err::<(i32, u32, u32), DateParseErrorKind>(
                e.kind,
            ) && e.message@ == parse_error_text(e.kind),
        },
        r matches Ok(t) ==> is_supported_date(t.0 as int, t.1 as int, t.2 as int),
        r is Ok || !(fmt@ == iso_format() && is_iso_date_text(s@)),
        r matches Ok(t) ==> (fmt@ == iso_format() && is_iso_date_text(s@) ==> s@ == iso_date_text(
            t.0 as int,
            t.1 as int,
            t.2 as int,
        )),
{
    match NaiveDate::parse_from_str(s, fmt) {
        Ok(date) => Ok((date.year(), date.month(), date.day())),
        Err(err) => {
            let kind = match err.kind() {
                ParseErrorKind::OutOfRange => DateParseErrorKind::OutOfRange,
                ParseErrorKind::Impossible => DateParseErrorKind::Impossible,
                ParseErrorKind::NotEnough => DateParseErrorKind::NotEnough,
                ParseErrorKind::Invalid => DateParseErrorKind::Invalid,
                ParseErrorKind::TooShort => DateParseErrorKind::TooShort,
                ParseErrorKind::TooLong => DateParseErrorKind::TooLong,
                _ => DateParseErrorKind::BadFormat,
            };
            Err(DateParseError { kind, message: err.to_string() })
        },
    }
}

/// Calls `and_hms_opt(0, 0, 0)`, `and_utc()` and `timestamp()` on the date.
///
/// Trusted: the result is the Unix timestamp of the date's midnight, that
/// is 86400 seconds per day since 1970-01-01. (chrono's deprecated
/// `NaiveDateTime::timestamp()` is defined as this same `and_utc().timestamp()`.)
#[verifier::external_body]
pub(crate) fn chrono_utc_midnight_timestamp(date: (i32, u32, u32)) -> (ts: i64)
    requires
        is_supported_date(date.0 as int, date.1 as int, date.2 as int),
    ensures
        ts == days_from_civil(date.0 as int, date.1 as int, date.2 as int) * 86400,
{
    let date = NaiveDate::from_ymd_opt(date.0, date.1, date.2).unwrap();
    date.and_hms_opt(0, 0, 0).unwrap().and_utc().timestamp()
}

/// Calls `chrono::NaiveDateTime::from_timestamp_opt(ts, 0)` and, when a
/// date time comes back, writes it with `format(fmt)`.
///
/// Only the formats `%Y-%m-%d` and `%d-%m-%Y` are admitted: with other
/// specifiers chrono's formatting can fail, and `to_string` then panics.
///
/// Trusted: there is a result exactly when the timestamp's day is a
/// supported date, and it is that date written out in the format.
#[verifier::external_body]
#[allow(deprecated)]
pub(crate) fn chrono_naive_format_timestamp(ts: i64, fmt: &str) -> (r: Option<String>)
    requires
        fmt@ == iso_format() || fmt@ == dmy_format(),
    ensures
        r is Some <==> is_supported_timestamp(ts as int),
        r matches Some(s) ==> (fmt@ == iso_format() ==> s@ == iso_text_of_timestamp(ts as int)),
        r matches Some(s) ==> (fmt@ == dmy_format() ==> s@ == dmy_text_of_timestamp(ts as int)),
{
    match NaiveDateTime::from_timestamp_opt(ts, 0) {
        Some(date_time) => Some(date_time.format(fmt).to_string()),
        None => None,
    }
}

/// Calls `chrono::DateTime::from_timestamp(ts, 0)` and, when a date time
/// comes back, writes it with `format(fmt)`.
///
/// Only the formats `%Y-%m-%d` and `%d-%m-%Y` are admitted: with other
/// specifiers chrono's formatting can fail, and `to_string` then panics.
///
/// Trusted: there is a result exactly when the timestamp's day is a
/// supported date, and it is that date written out in the format.
#[verifier::external_body]
pub(crate) fn chrono_utc_format_timestamp(ts: i64, fmt: &str) -> (r: Option<String>)
    requires
        fmt@ == iso_format() || fmt@ == dmy_format(),
    ensures
        r is Some <==> is_supported_timestamp(ts as int),
        r matches Some(s) ==> (fmt@ == iso_format() ==> s@ == iso_text_of_timestamp(ts as int)),
        r matches Some(s) ==> (fmt@ == dmy_format() ==> s@ == dmy_text_of_timestamp(ts as int)),
{
    match DateTime::from_timestamp(ts, 0) {
        Some(date_time) => Some(date_time.format(fmt).to_string()),
        None => None,
    }
}

/// Whether the day of a Unix timestamp is a date that can be written out.
pub fn is_supported_timestamp_exec(ts: i64) -> (r: bool)
    ensures
        r == is_supported_timestamp(ts as int),
{
    assert(first_supported_day() == -96465292);
    assert(last_supported_day() == 95026236);
    -8334601228800i64 <= ts && ts <= 8210266876799i64
}

} // verus!
