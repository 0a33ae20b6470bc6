use spotuify::text::{concatenated, decimal_field_text, decimal_text, format_ms};

#[test]
fn numerals_have_no_leading_zeros() {
    assert_eq!(decimal_text(0), "0");
    assert_eq!(decimal_text(9), "9");
    assert_eq!(decimal_text(10), "10");
    assert_eq!(decimal_text(100), "100");
    assert_eq!(decimal_text(u64::MAX), "18446744073709551615");
}

#[test]
fn numerals_are_moved_to_the_right() {
    assert_eq!(decimal_field_text(0), " 0");
    assert_eq!(decimal_field_text(7), " 7");
    assert_eq!(decimal_field_text(10), "10");
    assert_eq!(decimal_field_text(123), "123");
}

#[test]
fn numerals_agree_with_the_formatter() {
    for n in 0..2000u64 {
        assert_eq!(decimal_text(n), format!("{n}"));
        assert_eq!(decimal_field_text(n), format!("{n:>2}"));
    }
}

#[test]
fn milliseconds_are_shown_as_whole_minutes() {
    assert_eq!(format_ms(0), " 0m");
    assert_eq!(format_ms(59_999), " 0m");
    assert_eq!(format_ms(60_000), " 1m");
    assert_eq!(format_ms(599_999), " 9m");
    assert_eq!(format_ms(600_000), "10m");
    assert_eq!(format_ms(6_000_000), "100m");
    assert_eq!(format_ms(u32::MAX), "71582m");
}

#[test]
fn texts_are_put_together() {
    assert_eq!(concatenated("Refresh failed: ", "timeout"), "Refresh failed: timeout");
    assert_eq!(concatenated("", ""), "");
    assert_eq!(concatenated("ä", "→"), "ä→");
}
