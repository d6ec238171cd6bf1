use chrono::{TimeZone, Utc};
use timeparse::civil::{parse_civil, CivilDateTime};
use timeparse::model::{Instant, ParsedAs, TimeError, TsUnit, TzChoice, EXIT_PARSE, EXIT_TZ};
use timeparse::render::format_output;
use timeparse::resolve::{detect_unit, parse_input_to_utc, parse_timestamp_to_utc};

#[test]
fn parses_seconds_timestamp() {
    let (dt, parsed_as) = parse_input_to_utc("1700000000", TzChoice::Utc, None).unwrap();
    assert_eq!(dt.unix_seconds(), 1_700_000_000);

    match parsed_as {
        ParsedAs::Timestamp { unit, raw } => {
            assert_eq!(raw, 1_700_000_000);
            assert!(matches!(unit, TsUnit::Seconds));
        }
        _ => panic!("expected timestamp parse"),
    }
}

#[test]
fn parses_millis_timestamp_autodetect() {
    let (dt, parsed_as) = parse_input_to_utc("1700000000123", TzChoice::Utc, None).unwrap();
    assert_eq!(dt.unix_seconds(), 1_700_000_000);
    assert_eq!(dt.unix_millis(), 1_700_000_000_123);

    match parsed_as {
        ParsedAs::Timestamp { unit, .. } => assert!(matches!(unit, TsUnit::Millis)),
        _ => panic!("expected timestamp parse"),
    }
}

#[test]
fn parses_millis_timestamp_forced() {
    let (dt, parsed_as) =
        parse_input_to_utc("1700000000", TzChoice::Utc, Some(TsUnit::Millis)).unwrap();
    assert_eq!(dt.unix_millis(), 1_700_000_000);

    match parsed_as {
        ParsedAs::Timestamp { unit, .. } => assert!(matches!(unit, TsUnit::Millis)),
        _ => panic!("expected timestamp parse"),
    }
}

#[test]
fn parses_formatted_datetime_as_utc_when_input_tz_utc() {
    let (dt, parsed_as) =
        parse_input_to_utc("2025/12/20 11:10:11", TzChoice::Utc, None).unwrap();

    let expected = Utc.with_ymd_and_hms(2025, 12, 20, 11, 10, 11).unwrap();
    assert_eq!(dt, Instant { secs: expected.timestamp(), nanos: expected.timestamp_subsec_nanos() });

    assert!(matches!(parsed_as, ParsedAs::Formatted));
}

#[test]
fn rejects_unknown_format() {
    let err = parse_input_to_utc("2025-12-20 11:10:11", TzChoice::Utc, None).unwrap_err();
    assert_eq!(err.exit_code(), EXIT_PARSE);
}

#[test]
fn formats_default_rfc3339_utc() {
    let dt = Utc.with_ymd_and_hms(2025, 12, 20, 11, 10, 11).unwrap();
    let instant = Instant { secs: dt.timestamp(), nanos: 0 };
    let out = format_output(&instant, TzChoice::Utc, None).unwrap();
    assert!(out.starts_with("2025-12-20T11:10:11"));
}

#[test]
fn formats_custom_format_utc() {
    let dt = Utc.with_ymd_and_hms(2025, 12, 20, 11, 10, 11).unwrap();
    let instant = Instant { secs: dt.timestamp(), nanos: 0 };
    let out = format_output(&instant, TzChoice::Utc, Some("%Y/%m/%d %H:%M:%S")).unwrap();
    assert_eq!(out, "2025/12/20 11:10:11");
}

#[test]
fn small_magnitudes_autodetect_as_seconds() {
    for raw in [0i64, 1, -1, 999_999_999_999, -999_999_999_999, 1_700_000_000] {
        assert_eq!(detect_unit(raw, None), TsUnit::Seconds);
        let (i, unit) = parse_timestamp_to_utc(raw, None).unwrap();
        assert_eq!(unit, TsUnit::Seconds);
        assert_eq!(i.unix_seconds(), raw);
        assert_eq!(i.nanos, 0);
    }
}

#[test]
fn threshold_magnitudes_autodetect_as_millis() {
    for raw in [1_000_000_000_000i64, -1_000_000_000_000, 1_700_000_000_123, 8_000_000_000_000_000] {
        assert_eq!(detect_unit(raw, None), TsUnit::Millis);
        let (i, unit) = parse_timestamp_to_utc(raw, None).unwrap();
        assert_eq!(unit, TsUnit::Millis);
        assert_eq!(i.unix_millis(), raw);
    }
}

#[test]
fn negative_millis_keep_magnitude_of_remainder() {
    let (i, _) = parse_timestamp_to_utc(-1_000_000_000_500, None).unwrap();
    assert_eq!(i.secs, -1_000_000_000);
    assert_eq!(i.nanos, 500_000_000);
    assert_eq!(i.unix_millis(), -999_999_999_500);
}

#[test]
fn forced_seconds_overrides_large_magnitude() {
    let (i, unit) = parse_timestamp_to_utc(1_700_000_000_123, Some(TsUnit::Seconds)).unwrap();
    assert_eq!(unit, TsUnit::Seconds);
    assert_eq!(i.unix_seconds(), 1_700_000_000_123);
}

#[test]
fn out_of_range_timestamp_is_parse_error() {
    let err = parse_input_to_utc("9223372036854775807", TzChoice::Utc, Some(TsUnit::Seconds)).unwrap_err();
    assert_eq!(err, TimeError::InvalidTimestamp);
    assert!(err.is_parse());
    assert_eq!(err.message(), "Invalid unix timestamp");
    let err = parse_timestamp_to_utc(8_210_266_876_800, Some(TsUnit::Seconds)).unwrap_err();
    assert_eq!(err, TimeError::InvalidTimestamp);
    assert!(parse_timestamp_to_utc(8_210_266_876_799, Some(TsUnit::Seconds)).is_ok());
    assert!(parse_timestamp_to_utc(-8_334_601_228_800, Some(TsUnit::Seconds)).is_ok());
    assert!(parse_timestamp_to_utc(-8_334_601_228_801, Some(TsUnit::Seconds)).is_err());
    assert!(parse_timestamp_to_utc(i64::MIN, None).is_err());
}

#[test]
fn signed_and_malformed_numbers() {
    let (i, p) = parse_input_to_utc("+42", TzChoice::Utc, None).unwrap();
    assert_eq!(i.unix_seconds(), 42);
    assert_eq!(p, ParsedAs::Timestamp { unit: TsUnit::Seconds, raw: 42 });
    let (i, _) = parse_input_to_utc("-42", TzChoice::Utc, None).unwrap();
    assert_eq!(i.unix_seconds(), -42);
    for bad in ["", "-", "+", " 42", "42 ", "4 2", "0x10", "1.5"] {
        assert_eq!(parse_input_to_utc(bad, TzChoice::Utc, None).unwrap_err(), TimeError::BadFormat);
    }
}

#[test]
fn wrong_separators_fail_with_parse() {
    let err = parse_input_to_utc("2025-12-20 11:10:11", TzChoice::Utc, None).unwrap_err();
    assert_eq!(err, TimeError::BadFormat);
    assert!(err.is_parse());
    assert_eq!(err.message(), "Expected format: YYYY/MM/DD HH:MM:SS");
}

#[test]
fn pattern_requires_padding_and_range() {
    for bad in [
        "2025/1/20 11:10:11",
        "2025/12/20 11:10:1",
        "2025/12/20T11:10:11",
        "2025/13/20 11:10:11",
        "2025/00/20 11:10:11",
        "2025/02/29 11:10:11",
        "2025/04/31 11:10:11",
        "2025/12/20 24:00:00",
        "2025/12/20 11:60:00",
        "2025/12/20 11:10:60",
        " 2025/12/20 11:10:11",
        "2025/12/20 11:10:11 ",
    ] {
        assert_eq!(parse_civil(bad), None, "{bad}");
    }
    assert_eq!(
        parse_civil("2024/02/29 23:59:59"),
        Some(CivilDateTime { year: 2024, month: 2, day: 29, hour: 23, minute: 59, second: 59 })
    );
    assert!(parse_civil("2000/02/29 00:00:00").is_some());
    assert!(parse_civil("1900/02/29 00:00:00").is_none());
}

#[test]
fn civil_utc_matches_chrono_across_years() {
    for (text, y, mo, d, h, mi, s) in [
        ("0000/01/01 00:00:00", 0, 1, 1, 0, 0, 0),
        ("1969/12/31 23:59:59", 1969, 12, 31, 23, 59, 59),
        ("1970/01/01 00:00:00", 1970, 1, 1, 0, 0, 0),
        ("2000/03/01 12:00:00", 2000, 3, 1, 12, 0, 0),
        ("2023/11/14 22:13:20", 2023, 11, 14, 22, 13, 20),
        ("9999/12/31 23:59:59", 9999, 12, 31, 23, 59, 59),
    ] {
        let (i, _) = parse_input_to_utc(text, TzChoice::Utc, None).unwrap();
        let expected = Utc.with_ymd_and_hms(y, mo, d, h, mi, s).unwrap();
        assert_eq!(i.unix_seconds(), expected.timestamp(), "{text}");
    }
    let (i, _) = parse_input_to_utc("2023/11/14 22:13:20", TzChoice::Utc, None).unwrap();
    assert_eq!(i.unix_seconds(), 1_700_000_000);
}

#[test]
fn formatted_round_trips_through_default_rendering() {
    for text in ["2025/12/20 11:10:11", "1969/07/20 20:17:40", "0001/01/01 00:00:00", "2024/02/29 23:59:59"] {
        let (i, _) = parse_input_to_utc(text, TzChoice::Utc, None).unwrap();
        let out = format_output(&i, TzChoice::Utc, None).unwrap();
        let expected = text.replace('/', "-").replacen(' ', "T", 1);
        assert!(out.starts_with(&expected), "{out} vs {expected}");
    }
}

#[test]
fn default_rendering_shows_milliseconds() {
    let (i, _) = parse_input_to_utc("1700000000123", TzChoice::Utc, None).unwrap();
    let out = format_output(&i, TzChoice::Utc, None).unwrap();
    assert_eq!(out, "2023-11-14T22:13:20.123+00:00");
}

#[test]
fn invalid_pattern_renders_nothing() {
    let i = Instant { secs: 0, nanos: 0 };
    assert_eq!(format_output(&i, TzChoice::Utc, Some("%Q")), None);
    assert_eq!(format_output(&i, TzChoice::Utc, Some("%Y")).unwrap(), "1970");
}

#[test]
fn local_paths_yield_formatted_or_zone_error() {
    match parse_input_to_utc("2025/12/20 11:10:11", TzChoice::Local, None) {
        Ok((_, p)) => assert_eq!(p, ParsedAs::Formatted),
        Err(e) => {
            assert_eq!(e, TimeError::AmbiguousLocalTime);
            assert_eq!(e.exit_code(), EXIT_TZ);
        }
    }
    let i = Instant { secs: 1_700_000_000, nanos: 0 };
    assert!(format_output(&i, TzChoice::Local, None).unwrap().starts_with("2023-11-1"));
}

#[test]
fn timestamps_ignore_input_zone() {
    let (a, _) = parse_input_to_utc("1700000000", TzChoice::Local, None).unwrap();
    let (b, _) = parse_input_to_utc("1700000000", TzChoice::Utc, None).unwrap();
    assert_eq!(a, b);
}

#[test]
fn instants_round_trip_through_unix_values() {
    for secs in [0i64, 1_700_000_000, -86_400, 253_402_300_799] {
        let i = Instant { secs, nanos: 0 };
        let (back, _) = parse_timestamp_to_utc(i.unix_seconds(), Some(TsUnit::Seconds)).unwrap();
        assert_eq!(back, i);
        let (back, _) = parse_timestamp_to_utc(i.unix_millis(), Some(TsUnit::Millis)).unwrap();
        assert_eq!(back, i);
    }
    let i = Instant { secs: 1_700_000_000, nanos: 123_000_000 };
    let (back, _) = parse_timestamp_to_utc(i.unix_millis(), Some(TsUnit::Millis)).unwrap();
    assert_eq!(back, i);
}
