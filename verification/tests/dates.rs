use rath_demo::datetime::DateParseErrorKind;
use rath_demo::date_only_converter::date_only_to_timestamp::{can_serialize, deserialize, serialize};
use rath_demo::filters::{date_string, is_date_string_input_exec};
use rath_demo::serde_converters::date_to_timestamp;

#[test]
fn date_to_timestamp_reads_midnight_utc() {
    assert_eq!(date_to_timestamp("2024-03-15").unwrap(), 1710460800);
    assert_eq!(date_to_timestamp("1970-01-01").unwrap(), 0);
    assert_eq!(date_to_timestamp("1969-12-31").unwrap(), -86400);
    assert_eq!(date_to_timestamp("2000-02-29").unwrap(), 951782400);
}

#[test]
fn date_to_timestamp_errors() {
    let e = date_to_timestamp("2024-13-01").unwrap_err();
    assert_eq!(e.kind, DateParseErrorKind::OutOfRange);
    assert_eq!(e.message, "input is out of range");
    let e = date_to_timestamp("2023-02-29").unwrap_err();
    assert_eq!(e.kind, DateParseErrorKind::OutOfRange);
    let e = date_to_timestamp("").unwrap_err();
    assert_eq!(e.kind, DateParseErrorKind::TooShort);
    assert_eq!(e.message, "premature end of input");
    let e = date_to_timestamp("2024-03").unwrap_err();
    assert_eq!(e.kind, DateParseErrorKind::TooShort);
    let e = date_to_timestamp("2024-03-15x").unwrap_err();
    assert_eq!(e.kind, DateParseErrorKind::TooLong);
    assert_eq!(e.message, "trailing input");
    let e = date_to_timestamp("today").unwrap_err();
    assert_eq!(e.kind, DateParseErrorKind::Invalid);
    assert_eq!(e.message, "input contains invalid characters");
}

#[test]
fn deserialize_agrees_with_date_to_timestamp() {
    for s in ["2024-03-15", "1970-01-01", "1600-02-29", "9999-12-31", "0000-01-01", "2024-02-30", "x"] {
        let a = date_to_timestamp(s);
        let b = deserialize(s);
        match (a, b) {
            (Ok(x), Ok(y)) => assert_eq!(x, y),
            (Err(x), Err(y)) => {
                assert_eq!(x.kind, y.kind);
                assert_eq!(x.message, y.message);
            }
            _ => panic!("the two readings disagree on {s}"),
        }
    }
}

#[test]
fn serialize_writes_the_day() {
    assert_eq!(serialize(1710460800), "2024-03-15");
    assert_eq!(serialize(1710460800 + 86399), "2024-03-15");
    assert_eq!(serialize(-1), "1969-12-31");
    assert_eq!(serialize(0), "1970-01-01");
}

#[test]
fn serialize_writes_signed_years_outside_four_digits() {
    let ts = date_to_timestamp("+10000-01-01").unwrap();
    assert_eq!(serialize(ts), "+10000-01-01");
    let ts = date_to_timestamp("-0001-12-31").unwrap();
    assert_eq!(serialize(ts), "-0001-12-31");
    assert_eq!(serialize(-62167219200), "0000-01-01");
}

#[test]
fn serialize_then_deserialize_round_trip() {
    for ts in [0i64, 1710460800, -86400, 253402214400, -62167219200, -8334601228800, 8210266790400] {
        let text = serialize(ts);
        assert_eq!(deserialize(&text).unwrap(), ts);
    }
}

#[test]
fn deserialize_then_serialize_round_trip() {
    for s in ["2024-03-15", "0999-01-09", "-0044-03-15", "+262142-12-31", "-262143-01-01"] {
        let ts = deserialize(s).unwrap();
        assert_eq!(serialize(ts), s);
    }
}

#[test]
fn supported_timestamps_bounds() {
    assert!(can_serialize(8210266876799));
    assert!(!can_serialize(8210266876800));
    assert!(can_serialize(-8334601228800));
    assert!(!can_serialize(-8334601228801));
    assert!(!can_serialize(i64::MAX));
    assert!(!can_serialize(i64::MIN));
}

#[test]
fn date_string_shows_day_month_year() {
    assert_eq!(date_string("1710460800".to_string()), "15-03-2024");
    assert_eq!(date_string("0".to_string()), "01-01-1970");
    assert_eq!(date_string("-1".to_string()), "31-12-1969");
    assert_eq!(date_string("+86400".to_string()), "02-01-1970");
}

#[test]
fn date_string_shows_the_date_that_was_read() {
    let ts = date_to_timestamp("2031-07-04").unwrap();
    assert_eq!(date_string(ts.to_string()), "04-07-2031");
}

#[test]
fn date_string_inputs() {
    assert!(is_date_string_input_exec("1710460800"));
    assert!(is_date_string_input_exec("-5"));
    assert!(is_date_string_input_exec("+5"));
    assert!(!is_date_string_input_exec(""));
    assert!(!is_date_string_input_exec("-"));
    assert!(!is_date_string_input_exec(" 5"));
    assert!(!is_date_string_input_exec("5 "));
    assert!(!is_date_string_input_exec("1e3"));
    assert!(!is_date_string_input_exec("9223372036854775808"));
    assert!(!is_date_string_input_exec("9223372036854775807"));
}
