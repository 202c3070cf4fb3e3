use audio_library::decimal::{format_i64, format_time, format_u64, parse_i64};

#[test]
fn numbers_are_written_like_their_display_text() {
    for i in [0, 7, 10, 42, -1, -10, 1_000_000, i64::MAX, i64::MIN] {
        assert_eq!(format_i64(i), i.to_string());
    }
    assert_eq!(format_u64(u64::MAX), u64::MAX.to_string());
}

#[test]
fn numbers_are_read_like_the_standard_parser() {
    for text in [
        "",
        "+",
        "-",
        "7",
        "+7",
        "-7",
        "--7",
        "+-7",
        "007",
        "-0",
        "7 ",
        " 7",
        "7a",
        "٣",
        "9223372036854775807",
        "9223372036854775808",
        "-9223372036854775808",
        "-9223372036854775809",
        "00000000000000000000000000000000000000000001",
        "99999999999999999999999999999999999999999999999999999999",
    ] {
        assert_eq!(parse_i64(text), text.parse::<i64>().ok(), "{text}");
    }
}

#[test]
fn reading_undoes_writing() {
    for i in [0, 1, -1, 59, 123_456_789, i64::MIN, i64::MAX] {
        assert_eq!(parse_i64(&format_i64(i)), Some(i));
    }
}

#[test]
fn different_numbers_are_written_differently() {
    assert_ne!(format_i64(1), format_i64(-1));
    assert_ne!(format_i64(10), format_i64(1));
}

#[test]
fn times_have_minutes_and_two_digits_of_seconds() {
    assert_eq!(format_time(0), "0:00");
    assert_eq!(format_time(9), "0:09");
    assert_eq!(format_time(59), "0:59");
    assert_eq!(format_time(60), "1:00");
    assert_eq!(format_time(754), "12:34");
    assert_eq!(format_time(3600), "60:00");
    assert_eq!(format_time(u64::MAX), format!("{}:{:02}", u64::MAX / 60, u64::MAX % 60));
}

#[test]
fn different_times_are_written_differently() {
    assert_ne!(format_time(61), format_time(601));
    assert_ne!(format_time(1), format_time(10));
}
