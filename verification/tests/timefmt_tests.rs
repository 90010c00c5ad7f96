use fokus::timefmt::{dec_string, format_duration, padded_dec_string};

#[test]
fn format_zero() {
    assert_eq!(format_duration(0), "00:00.00");
}

#[test]
fn format_ninety_and_a_half_seconds() {
    assert_eq!(format_duration(90_500), "01:30.50");
}

#[test]
fn format_centiseconds_truncate_never_round_up() {
    assert_eq!(format_duration(3_599_990), "59:59.99");
    assert_eq!(format_duration(3_599_999), "59:59.99");
}

#[test]
fn format_millisecond_truncates_to_centis() {
    assert_eq!(format_duration(1_234), "00:01.23");
    assert_eq!(format_duration(9), "00:00.00");
    assert_eq!(format_duration(10), "00:00.01");
}

#[test]
fn format_minutes_wider_than_two_digits_not_truncated() {
    assert_eq!(format_duration(999 * 60 * 1000), "999:00.00");
    assert_eq!(format_duration(100 * 60 * 1000 + 5_010), "100:05.01");
}

#[test]
fn decimal_strings() {
    assert_eq!(dec_string(0), "0");
    assert_eq!(dec_string(907), "907");
    assert_eq!(padded_dec_string(7), "07");
    assert_eq!(padded_dec_string(42), "42");
    assert_eq!(padded_dec_string(1234), "1234");
}
