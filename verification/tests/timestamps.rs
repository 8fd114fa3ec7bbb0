use k21_node::timestamp::is_valid_timestamp;

#[test]
fn plain_date_and_time() {
    assert!(is_valid_timestamp("2025-03-01T12:34:56"));
    assert!(is_valid_timestamp("2025-03-01 12:34:56"));
    assert!(is_valid_timestamp("2025-03-01t12:34:56"));
}

#[test]
fn with_zone() {
    assert!(is_valid_timestamp("2025-03-01T12:34:56Z"));
    assert!(is_valid_timestamp("2025-03-01T12:34:56z"));
    assert!(is_valid_timestamp("2025-03-01T12:34:56+00:00"));
    assert!(is_valid_timestamp("2025-03-01T12:34:56-08:00"));
    assert!(is_valid_timestamp("2025-03-01T12:34:56+23:59"));
}

#[test]
fn with_fraction() {
    assert!(is_valid_timestamp("2025-03-01T12:34:56.1"));
    assert!(is_valid_timestamp("2025-03-01T12:34:56.123"));
    assert!(is_valid_timestamp("2025-03-01T12:34:56.123456789Z"));
    assert!(is_valid_timestamp("2025-03-01T12:34:56.123456+02:00"));
}

#[test]
fn smallest_and_largest_fields() {
    assert!(is_valid_timestamp("0000-01-01T00:00:00Z"));
    assert!(is_valid_timestamp("9999-12-31T23:59:59Z"));
}

#[test]
fn empty_text_is_no_timestamp() {
    assert!(!is_valid_timestamp(""));
}

#[test]
fn too_short_is_no_timestamp() {
    assert!(!is_valid_timestamp("2025-03-01"));
    assert!(!is_valid_timestamp("2025-03-01T12:34"));
    assert!(!is_valid_timestamp("2025-03-01T12:34:5"));
}

#[test]
fn month_out_of_range() {
    assert!(!is_valid_timestamp("2025-00-10T12:00:00Z"));
    assert!(!is_valid_timestamp("2025-13-10T12:00:00Z"));
}

#[test]
fn day_out_of_range() {
    assert!(!is_valid_timestamp("2025-01-00T12:00:00Z"));
    assert!(!is_valid_timestamp("2025-01-32T12:00:00Z"));
    assert!(!is_valid_timestamp("2025-04-31T12:00:00Z"));
    assert!(is_valid_timestamp("2025-04-30T12:00:00Z"));
    assert!(is_valid_timestamp("2025-01-31T12:00:00Z"));
}

#[test]
fn february_in_leap_and_common_years() {
    assert!(is_valid_timestamp("2024-02-29T00:00:00Z"));
    assert!(!is_valid_timestamp("2025-02-29T00:00:00Z"));
    assert!(is_valid_timestamp("2000-02-29T00:00:00Z"));
    assert!(!is_valid_timestamp("1900-02-29T00:00:00Z"));
    assert!(!is_valid_timestamp("2024-02-30T00:00:00Z"));
    assert!(is_valid_timestamp("2025-02-28T00:00:00Z"));
}

#[test]
fn time_out_of_range() {
    assert!(!is_valid_timestamp("2025-03-01T24:00:00Z"));
    assert!(!is_valid_timestamp("2025-03-01T12:60:00Z"));
    assert!(!is_valid_timestamp("2025-03-01T12:00:60Z"));
}

#[test]
fn wrong_punctuation() {
    assert!(!is_valid_timestamp("2025/03/01T12:00:00Z"));
    assert!(!is_valid_timestamp("2025-03-01X12:00:00Z"));
    assert!(!is_valid_timestamp("2025-03-01T12-00-00Z"));
    assert!(!is_valid_timestamp("2025-03-01_12:00:00"));
}

#[test]
fn letters_where_digits_belong() {
    assert!(!is_valid_timestamp("20a5-03-01T12:00:00Z"));
    assert!(!is_valid_timestamp("2025-0b-01T12:00:00Z"));
    assert!(!is_valid_timestamp("2025-03-01T1c:00:00Z"));
}

#[test]
fn fraction_needs_a_digit() {
    assert!(!is_valid_timestamp("2025-03-01T12:00:00."));
    assert!(!is_valid_timestamp("2025-03-01T12:00:00.Z"));
}

#[test]
fn malformed_zone() {
    assert!(!is_valid_timestamp("2025-03-01T12:00:00+0800"));
    assert!(!is_valid_timestamp("2025-03-01T12:00:00+08"));
    assert!(!is_valid_timestamp("2025-03-01T12:00:00+24:00"));
    assert!(!is_valid_timestamp("2025-03-01T12:00:00+08:60"));
    assert!(!is_valid_timestamp("2025-03-01T12:00:00*08:00"));
    assert!(!is_valid_timestamp("2025-03-01T12:00:00ZZ"));
    assert!(!is_valid_timestamp("2025-03-01T12:00:00 UTC"));
}

#[test]
fn trailing_text() {
    assert!(!is_valid_timestamp("2025-03-01T12:00:00Z "));
    assert!(!is_valid_timestamp("2025-03-01T12:00:00.5x"));
}

#[test]
fn characters_outside_ascii() {
    assert!(!is_valid_timestamp("2025-03-01T12:00:00\u{ff3a}"));
    assert!(!is_valid_timestamp("\u{ff12}025-03-01T12:00:00Z"));
    assert!(!is_valid_timestamp("2025\u{2010}03\u{2010}01T12:00:00Z"));
}
