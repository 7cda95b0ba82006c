use chrono::{DateTime, Datelike, Utc};
use logwork::timestamp::{
    fits_shape, is_normalized_text, normalize, reparse, ParseError, FIRST_SECOND, INPUT_PATTERN,
    LAST_SECOND, OUTPUT_PATTERN, YEAR_0000, YEAR_10000,
};

fn has_stamp_shape(text: &str) -> bool {
    let shape = "dddd-dd-ddTdd:dd:dd.ddd+dddd";
    text.chars().count() == shape.chars().count()
        && text.chars().zip(shape.chars()).all(|(c, s)| match s {
            'd' => c.is_ascii_digit(),
            '+' => c == '+' || c == '-',
            other => c == other,
        })
}

#[test]
fn normalize_joins_date_time_and_offset() {
    assert_eq!(normalize("2024-02-01", "16:00", "-0500"), "2024-02-01T16:00:00.000-0500");
}

#[test]
fn normalize_checks_nothing() {
    assert_eq!(normalize("", "", ""), "T:00.000");
    assert_eq!(normalize("tomorrow", "noon", "Z"), "tomorrowTnoon:00.000Z");
}

#[test]
fn normalize_gives_the_accepted_shape() {
    for (date, time, offset) in [
        ("2024-02-01", "16:00", "-0500"),
        ("1999-12-31", "23:59", "+0000"),
        ("0000-00-00", "99:99", "+9999"),
    ] {
        let text = normalize(date, time, offset);
        assert!(has_stamp_shape(&text));
        assert!(is_normalized_text(&text));
        assert!(fits_shape(&text, "dddd-dd-ddTdd:dd:00.000+dddd"));
        assert_eq!(&text[16..23], ":00.000");
    }
}

#[test]
fn reparse_keeps_a_canonical_start_time() {
    assert_eq!(
        reparse("2024-03-19T14:00:00.000+0000"),
        Ok("2024-03-19T14:00:00.000+0000".to_string())
    );
}

#[test]
fn reparse_writes_three_digits_of_milliseconds() {
    assert_eq!(
        reparse("2024-03-19T14:00:00+0000"),
        Ok("2024-03-19T14:00:00.000+0000".to_string())
    );
    assert_eq!(
        reparse("2024-03-19T14:00:00.5-0500"),
        Ok("2024-03-19T14:00:00.500-0500".to_string())
    );
    assert_eq!(
        reparse("2024-03-19T14:00:00.123456789+0930"),
        Ok("2024-03-19T14:00:00.123+0930".to_string())
    );
}

#[test]
fn reparse_accepts_an_offset_with_a_colon() {
    assert_eq!(
        reparse("2024-03-19T14:00:00.000+05:30"),
        Ok("2024-03-19T14:00:00.000+0530".to_string())
    );
}

#[test]
fn reparse_refuses_a_malformed_date() {
    assert!(reparse("2024-13-40").is_err());
    assert_eq!(reparse("2024-13-40T10:00:00.000+0000"), Err(ParseError::OutOfRange));
}

#[test]
fn reparse_refuses_a_missing_offset() {
    assert_eq!(reparse("2024-03-19T14:00:00.000"), Err(ParseError::TooShort));
}

#[test]
fn reparse_refuses_an_offset_of_a_day_or_more() {
    assert_eq!(
        reparse("1970-01-01T23:59:59.000+2359"),
        Ok("1970-01-01T23:59:59.000+2359".to_string())
    );
    assert_eq!(reparse("1970-01-01T23:59:59.000+2400"), Err(ParseError::OutOfRange));
    assert_eq!(reparse("1970-01-01T23:59:59.000-2400"), Err(ParseError::OutOfRange));
    assert_eq!(reparse("1970-01-01T23:59:59.000+0060"), Err(ParseError::OutOfRange));
}

#[test]
fn reparse_names_each_failure() {
    assert_eq!(reparse(""), Err(ParseError::TooShort));
    assert_eq!(reparse("yesterday"), Err(ParseError::Invalid));
    assert_eq!(reparse("2024-03-19T14:00:00.000+0000 "), Err(ParseError::TooLong));
    assert_eq!(reparse("2024-02-30T14:00:00.000+0000"), Err(ParseError::OutOfRange));
    assert_eq!(reparse("2024-03-19T25:00:00.000+0000"), Err(ParseError::OutOfRange));
}

#[test]
fn reparse_twice_is_reparse_once() {
    for input in [
        "2024-03-19T14:00:00.000+0000",
        "2024-03-19T14:00:00+0000",
        "2024-03-19T14:00:00.123456789+0930",
        "2016-12-31T23:59:60.750-0800",
        "0001-01-01T00:00:00.001+2359",
        "+12345-06-07T08:09:10.999-2359",
        "-0044-03-15T12:00:00+0100",
    ] {
        let once = reparse(input).unwrap();
        assert_eq!(reparse(&once), Ok(once.clone()), "{}", input);
    }
}

#[test]
fn reparse_ends_in_milliseconds_and_offset() {
    for input in [
        "2024-03-19T14:00:00+0000",
        "+12345-06-07T08:09:10.999-2359",
        "-0044-03-15T12:00:00+0100",
    ] {
        let text = reparse(input).unwrap();
        let tail: Vec<char> = text.chars().rev().take(9).collect();
        assert!(tail[8] == '.');
        assert!(tail[4] == '+' || tail[4] == '-');
        for i in [0, 1, 2, 3, 5, 6, 7] {
            assert!(tail[i].is_ascii_digit());
        }
    }
    assert_eq!(reparse("+12345-06-07T08:09:10.999-2359").unwrap(), "+12345-06-07T08:09:10.999-2359");
    assert_eq!(reparse("-0044-03-15T12:00:00+0100").unwrap(), "-0044-03-15T12:00:00.000+0100");
}

#[test]
fn reparse_keeps_the_local_time_and_the_offset() {
    assert_eq!(
        reparse("2024-02-01T16:00:00.250-0500"),
        Ok("2024-02-01T16:00:00.250-0500".to_string())
    );
    assert_eq!(
        reparse("1970-01-01T00:00:00+0000"),
        Ok("1970-01-01T00:00:00.000+0000".to_string())
    );
    assert_eq!(
        reparse("1969-12-31T19:00:00-0500"),
        Ok("1969-12-31T19:00:00.000-0500".to_string())
    );
    assert_eq!(
        reparse("2024-12-31T23:30:00.999+2359"),
        Ok("2024-12-31T23:30:00.999+2359".to_string())
    );
}

#[test]
fn reparse_keeps_a_leap_second() {
    assert_eq!(
        reparse("2016-12-31T23:59:60.750+0000"),
        Ok("2016-12-31T23:59:60.750+0000".to_string())
    );
    assert_eq!(
        reparse("2016-12-31T15:59:60-0800"),
        Ok("2016-12-31T15:59:60.000-0800".to_string())
    );
}

#[test]
fn reparse_is_normalized_in_the_years_0000_to_9999() {
    for input in [
        "0000-01-01T00:00:00+0000",
        "0000-01-01T00:00:00+2359",
        "0999-06-15T12:00:00.5-0100",
        "2024-03-19T14:00:00+0000",
        "2016-12-31T23:59:60.750+0000",
        "9999-12-31T23:59:59.999999999-2359",
    ] {
        let read = DateTime::parse_from_str(input, INPUT_PATTERN).unwrap();
        let local = read.timestamp() + i64::from(read.offset().local_minus_utc());
        assert!(YEAR_0000 <= local && local < YEAR_10000, "{}", input);
        assert!(is_normalized_text(&reparse(input).unwrap()), "{}", input);
    }
    for input in ["-0001-12-31T23:59:59+0000", "+10000-01-01T00:00:00+0000"] {
        let read = DateTime::parse_from_str(input, INPUT_PATTERN).unwrap();
        let local = read.timestamp() + i64::from(read.offset().local_minus_utc());
        assert!(local < YEAR_0000 || YEAR_10000 <= local, "{}", input);
        assert!(!is_normalized_text(&reparse(input).unwrap()), "{}", input);
    }
}

#[test]
fn the_years_0000_and_10000_begin_where_the_library_says() {
    let first = DateTime::from_timestamp(YEAR_0000, 0).unwrap();
    assert_eq!(first.format(OUTPUT_PATTERN).to_string(), "0000-01-01T00:00:00.000+0000");
    assert_eq!(DateTime::from_timestamp(YEAR_0000 - 1, 0).unwrap().year(), -1);
    let after = DateTime::from_timestamp(YEAR_10000, 0).unwrap();
    assert_eq!(after.format(OUTPUT_PATTERN).to_string(), "+10000-01-01T00:00:00.000+0000");
    assert_eq!(DateTime::from_timestamp(YEAR_10000 - 1, 0).unwrap().year(), 9999);
}

#[test]
fn the_first_and_the_last_second_are_the_parsers() {
    assert_eq!(DateTime::<Utc>::MIN_UTC.timestamp(), FIRST_SECOND);
    assert_eq!(DateTime::<Utc>::MAX_UTC.timestamp(), LAST_SECOND);
    assert!(DateTime::from_timestamp(FIRST_SECOND, 0).is_some());
    assert!(DateTime::from_timestamp(LAST_SECOND, 1_999_999_999).is_some());
    assert!(DateTime::from_timestamp(FIRST_SECOND - 1, 0).is_none());
    assert!(DateTime::from_timestamp(LAST_SECOND + 1, 0).is_none());
}

#[test]
fn reparse_reaches_the_first_and_the_last_year() {
    assert_eq!(
        reparse("-262143-01-01T00:00:00+0000"),
        Ok("-262143-01-01T00:00:00.000+0000".to_string())
    );
    assert_eq!(
        reparse("+262142-12-31T23:59:59.999+0000"),
        Ok("+262142-12-31T23:59:59.999+0000".to_string())
    );
    assert_eq!(reparse("-262143-01-01T00:00:00+0100"), Err(ParseError::Impossible));
    assert_eq!(reparse("+262142-12-31T23:59:59-0100"), Err(ParseError::Impossible));
    assert_eq!(reparse("+262143-01-01T00:00:00+0000"), Err(ParseError::OutOfRange));
}

#[test]
fn fits_shape_reads_digits_signs_and_literals() {
    assert!(fits_shape("2024-02-01", "dddd-dd-dd"));
    assert!(fits_shape("-0500", "+dddd"));
    assert!(fits_shape("+0000", "+dddd"));
    assert!(fits_shape("", ""));
    assert!(!fits_shape("2024-02-01", "dddd-dd"));
    assert!(!fits_shape("2024/02/01", "dddd-dd-dd"));
    assert!(!fits_shape("20x4-02-01", "dddd-dd-dd"));
    assert!(!fits_shape("0500", "+dddd"));
    assert!(!fits_shape("d", "d"));
    assert!(!fits_shape("\u{0664}", "d"));
}

#[test]
fn is_normalized_text_wants_milliseconds_and_a_plain_offset() {
    assert!(is_normalized_text("2024-02-01T16:00:00.000-0500"));
    assert!(is_normalized_text("2024-03-19T14:00:59.123+0000"));
    assert!(!is_normalized_text("2024-03-19T14:00:00+0000"));
    assert!(!is_normalized_text("2024-03-19T14:00:00.000+00:00"));
    assert!(!is_normalized_text("2024-03-19T14:00:00.000Z"));
    assert!(!is_normalized_text("2024-03-19 14:00:00.000+0000"));
    assert!(!is_normalized_text("2024-03-19T14:00:00.0000+0000"));
    assert!(!is_normalized_text(""));
}

#[test]
fn parse_error_message_is_the_parsers() {
    for (input, kind) in [
        ("2024-13-40T10:00:00.000+0000", ParseError::OutOfRange),
        ("yesterday", ParseError::Invalid),
        ("2024-03-19T14:00:00.000", ParseError::TooShort),
        ("2024-03-19T14:00:00.000+0000 ", ParseError::TooLong),
    ] {
        let theirs = DateTime::parse_from_str(input, INPUT_PATTERN).unwrap_err();
        assert_eq!(reparse(input), Err(kind));
        assert_eq!(kind.message(), theirs.to_string());
    }
    assert_eq!(ParseError::Impossible.message(), "no possible date and time matching input");
    assert_eq!(ParseError::NotEnough.message(), "input is not enough for unique date and time");
    assert_eq!(ParseError::BadFormat.message(), "bad or unsupported format string");
}
