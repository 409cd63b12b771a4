use jetbrains_projects::timestamp::{last_opened_of, parse_integer};

#[test]
fn integers_are_read_in_base_ten() {
    assert_eq!(parse_integer("0"), Some(0));
    assert_eq!(parse_integer("1700000000000"), Some(1_700_000_000_000));
    assert_eq!(parse_integer("-42"), Some(-42));
    assert_eq!(parse_integer("+42"), Some(42));
    assert_eq!(parse_integer("007"), Some(7));
}

#[test]
fn integers_reach_both_ends_of_the_range() {
    assert_eq!(parse_integer("9223372036854775807"), Some(i64::MAX));
    assert_eq!(parse_integer("-9223372036854775808"), Some(i64::MIN));
    assert_eq!(parse_integer("9223372036854775808"), None);
    assert_eq!(parse_integer("-9223372036854775809"), None);
    assert_eq!(parse_integer("99999999999999999999999999"), None);
}

#[test]
fn anything_else_is_no_integer() {
    assert_eq!(parse_integer(""), None);
    assert_eq!(parse_integer("-"), None);
    assert_eq!(parse_integer("+"), None);
    assert_eq!(parse_integer(" 1"), None);
    assert_eq!(parse_integer("1 "), None);
    assert_eq!(parse_integer("1.5"), None);
    assert_eq!(parse_integer("12a"), None);
    assert_eq!(parse_integer("--1"), None);
    assert_eq!(parse_integer("٣"), None);
}

#[test]
fn parse_integer_agrees_with_std() {
    for t in ["5", "-5", "+5", "", "x", "18446744073709551616", "-0", "+0", "0x10", "1_000"] {
        assert_eq!(parse_integer(t), t.parse::<i64>().ok());
    }
}

#[test]
fn usable_timestamps_are_kept_as_they_are() {
    assert_eq!(last_opened_of(Some("1700000000000")), Some(1_700_000_000_000));
    assert_eq!(last_opened_of(Some("0")), Some(0));
    assert_eq!(last_opened_of(Some("-1")), Some(-1));
}

#[test]
fn missing_or_unreadable_timestamps_are_not_usable() {
    assert_eq!(last_opened_of(None), None);
    assert_eq!(last_opened_of(Some("")), None);
    assert_eq!(last_opened_of(Some("yesterday")), None);
}

#[test]
fn calendar_ends_are_exact() {
    assert_eq!(last_opened_of(Some("8210266876799999")), Some(8_210_266_876_799_999));
    assert_eq!(last_opened_of(Some("8210266876800000")), None);
    assert_eq!(last_opened_of(Some("-8334601228800000")), Some(-8_334_601_228_800_000));
    assert_eq!(last_opened_of(Some("-8334601228800001")), None);
}

#[test]
fn timestamps_outside_the_calendar_are_not_usable() {
    assert_eq!(last_opened_of(Some("9223372036854775807")), None);
    assert_eq!(last_opened_of(Some("-9223372036854775808")), None);
}
