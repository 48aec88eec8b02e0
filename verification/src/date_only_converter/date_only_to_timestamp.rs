//! Writes a timestamp as the `%Y-%m-%d` text of its day, and reads such a
//! text back as the timestamp of the day's midnight.
use vstd::prelude::*;

use crate::calendar::{
    date_of_day, is_iso_date_text, is_supported_date, is_supported_timestamp, iso_date_text, lemma_iso_date_text_injective, lemma_supported_day_has_date,
};
use crate::datetime::{
    chrono_naive_format_timestamp, iso_text_of_timestamp, parse_error_text, DateParseError,
};
use crate::serde_converters::{date_to_timestamp, midnight_of_date_text, timestamp_outcome};

verus! {

/// Writes the day of a Unix timestamp as `%Y-%m-%d`.
pub fn serialize(date: i64) -> (text: String)
    requires
        is_supported_timestamp(date as int),
    ensures
        text@ == iso_text_of_timestamp(date as int),
        is_iso_date_text(text@),
{
    match chrono_naive_format_timestamp(date, "%Y-%m-%d") {
        Some(text) => {
            proof {
                lemma_supported_day_has_date(date / 86400);
                let t = date_of_day(date / 86400);
                assert(is_supported_date(t.0, t.1, t.2) && text@ == iso_date_text(t.0, t.1, t.2));
            }
            text
        },
        None => {
            proof {
                assert(false);
            }
            String::new()
        },
    }
}

/// Whether `serialize` can write the timestamp: its day is a supported
/// date.
pub fn can_serialize(date: i64) -> (r: bool)
    ensures
        r == is_supported_timestamp(date as int),
{
    crate::datetime::is_supported_timestamp_exec(date)
}

/// Reads a `%Y-%m-%d` text as the timestamp of the day's midnight.
///
/// It reads what `crate::serde_converters::date_to_timestamp` reads, and
/// `serialize` writes back the very text it read when that text is one that
/// `serialize` writes.
pub fn deserialize(s: &str) -> (r: Result<i64, DateParseError>)
    ensures
        timestamp_outcome(r) == midnight_of_date_text(s@),
        r matches Err(e) ==> e.message@ == parse_error_text(e.kind),
        r matches Ok(ts) ==> is_supported_timestamp(ts as int) && ts % 86400 == 0,
        is_iso_date_text(s@) ==> (r matches Ok(ts) && iso_text_of_timestamp(ts as int) == s@),
{
    date_to_timestamp(s)
}

/// Law: `deserialize` gives back the timestamp that `serialize` wrote out,
/// for every supported timestamp at midnight. Stated over their contracts:
/// a supported midnight timestamp `ts2` whose text is the text of the
/// supported midnight timestamp `ts` is `ts`.
pub proof fn law_deserialize_inverts_serialize(ts: int, ts2: int)
    requires
        is_supported_timestamp(ts),
        ts % 86400 == 0,
        is_supported_timestamp(ts2),
        ts2 % 86400 == 0,
        iso_text_of_timestamp(ts2) == iso_text_of_timestamp(ts),
    ensures
        ts2 == ts,
{
    lemma_supported_day_has_date(ts / 86400);
    lemma_supported_day_has_date(ts2 / 86400);
    let a = date_of_day(ts / 86400);
    let b = date_of_day(ts2 / 86400);
    lemma_iso_date_text_injective(a.0, a.1, a.2, b.0, b.1, b.2);
}

} // verus!
