//! Reading a form's `%Y-%m-%d` date field as the Unix timestamp of that
//! date's midnight in UTC.
use vstd::prelude::*;

use crate::calendar::{
    days_from_civil, dmy_date_text, iso_date_text, is_supported_date,
    is_supported_timestamp, lemma_date_of_day,
};
use crate::datetime::{
    chrono_parse_date, chrono_parse_from_str, chrono_utc_midnight_timestamp, dmy_text_of_timestamp,
    iso_format, iso_text_of_timestamp, parse_error_text, DateParseError, DateParseErrorKind,
};

verus! {

/// What reading a date text gives: the timestamp of the midnight (UTC)
/// that starts the date, or why the text is no date.
pub open spec fn midnight_of_date_text(s: Seq<char>) -> Result<int, DateParseErrorKind> {
    match chrono_parse_date(s, iso_format()) {
        Ok(t) => Ok(days_from_civil(t.0 as int, t.1 as int, t.2 as int) * 86400),
        Err(k) => Err(k),
    }
}

/// The outcome of a date reading, with the error reduced to its kind.
pub open spec fn timestamp_outcome(r: Result<i64, DateParseError>) -> Result<int, DateParseErrorKind> {
    match r {
        Ok(ts) => Ok(ts as int),
        Err(e) => Err(e.kind),
    }
}

/// Turns a date read by chrono into the timestamp of its midnight (UTC),
/// and passes an error on unchanged.
pub fn utc_midnight_of(parsed: Result<(i32, u32, u32), DateParseError>) -> (r: Result<
    i64,
    DateParseError,
>)
    requires
        parsed matches Ok(t) ==> is_supported_date(t.0 as int, t.1 as int, t.2 as int),
    ensures
        match parsed {
            Ok(t) => (r matches Ok(ts) && ts == days_from_civil(t.0 as int, t.1 as int, t.2 as int)
                * 86400),
            Err(e) => r == Err::<i64, DateParseError>(e),
        },
{
    match parsed {
        Ok(date) => Ok(chrono_utc_midnight_timestamp(date)),
        Err(e) => Err(e),
    }
}

/// Reads a `%Y-%m-%d` date text as the Unix timestamp of the midnight
/// (UTC) that starts the date.
///
/// The timestamp is one of a supported date's midnight; `%d-%m-%Y` and
/// `%Y-%m-%d` write that same date for it; and the text of a supported
/// date as `%Y-%m-%d` writes it is always read.
pub fn date_to_timestamp(s: &str) -> (r: Result<i64, DateParseError>)
    ensures
        timestamp_outcome(r) == midnight_of_date_text(s@),
        r matches Err(e) ==> e.message@ == parse_error_text(e.kind),
        r matches Ok(ts) ==> is_supported_timestamp(ts as int) && ts % 86400 == 0,
        r matches Ok(ts) ==> (chrono_parse_date(s@, iso_format()) matches Ok(t)
            && dmy_text_of_timestamp(ts as int) == dmy_date_text(t.0 as int, t.1 as int, t.2 as int)
            && iso_text_of_timestamp(ts as int) == iso_date_text(t.0 as int, t.1 as int, t.2 as int)),
        crate::calendar::is_iso_date_text(s@) ==> (r matches Ok(ts) && iso_text_of_timestamp(
            ts as int,
        ) == s@),
{
    let parsed = chrono_parse_from_str(s, "%Y-%m-%d");
    let ghost read = parsed;
    let r = utc_midnight_of(parsed);
    proof {
        if let Ok(t) = read {
            let (y, m, d) = (t.0 as int, t.1 as int, t.2 as int);
            lemma_date_of_day(y, m, d);
            crate::calendar::lemma_supported_day_range(y, m, d);
            assert((days_from_civil(y, m, d) * 86400) / 86400 == days_from_civil(y, m, d));
        }
    }
    r
}

} // verus!
