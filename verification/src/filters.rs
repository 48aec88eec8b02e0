//! Template filters.
use vstd::prelude::*;

use crate::calendar::is_supported_timestamp;
use crate::datetime::{chrono_parse_date, iso_format};
use crate::datetime::{chrono_utc_format_timestamp, dmy_text_of_timestamp, is_supported_timestamp_exec};
use crate::decimal::{i64_text, i64_text_value, lemma_i64_text_value, parse_i64};
use crate::calendar::dmy_date_text;
use crate::serde_converters::midnight_of_date_text;
use crate::datetime::DateParseErrorKind;

verus! {

/// The text is a decimal `i64` whose day is a supported date, so that
/// `date_string` can show it.
pub open spec fn is_date_string_input(timestamp: Seq<char>) -> bool {
    i64_text_value(timestamp) matches Some(ts) && is_supported_timestamp(ts)
}

/// Shows a Unix timestamp, given as decimal text, as the `%d-%m-%Y` date of
/// its day in UTC.
pub fn date_string(timestamp: String) -> (date: String)
    requires
        is_date_string_input(timestamp@),
    ensures
        date@ == dmy_text_of_timestamp(i64_text_value(timestamp@)->0),
{
    match parse_i64(timestamp.as_str()) {
        Some(ts) => match chrono_utc_format_timestamp(ts, "%d-%m-%Y") {
            Some(date_formatted) => date_formatted,
            None => {
                proof {
                    assert(false);
                }
                String::new()
            },
        },
        None => {
            proof {
                assert(false);
            }
            String::new()
        },
    }
}

/// Whether `date_string` can show the text: it is a decimal `i64` whose
/// day is a supported date.
pub fn is_date_string_input_exec(timestamp: &str) -> (r: bool)
    ensures
        r == is_date_string_input(timestamp@),
{
    match parse_i64(timestamp) {
        Some(ts) => is_supported_timestamp_exec(ts),
        None => false,
    }
}

/// Law: the filter shows the day that the form submitted. When
/// `crate::serde_converters::date_to_timestamp` reads a date text `s` as the
/// timestamp `ts` (its postcondition is the `requires` here), the decimal
/// text of `ts` is an input `date_string` takes, and it shows that date as
/// `%d-%m-%Y`.
pub proof fn law_date_string_shows_submitted_day(s: Seq<char>, ts: i64)
    requires
        midnight_of_date_text(s) == Ok::<int, DateParseErrorKind>(ts as int),
        is_supported_timestamp(ts as int),
        chrono_parse_date(s, iso_format()) matches Ok(t) && dmy_text_of_timestamp(ts as int)
            == dmy_date_text(t.0 as int, t.1 as int, t.2 as int),
    ensures
        is_date_string_input(i64_text(ts as int)),
        chrono_parse_date(s, iso_format()) matches Ok(t) && dmy_text_of_timestamp(
            i64_text_value(i64_text(ts as int))->0,
        ) == dmy_date_text(t.0 as int, t.1 as int, t.2 as int),
{
    lemma_i64_text_value(ts as int);
}

} // verus!
