use batt_reminder::sensor::{parse_capacity, parse_status, reading_from_texts, trim, BattStatus};

#[test]
fn capacity_plain_number() {
    assert_eq!(parse_capacity("80"), Some(80));
}

#[test]
fn capacity_with_trailing_newline() {
    assert_eq!(parse_capacity("25\n"), Some(25));
}

#[test]
fn capacity_with_surrounding_whitespace() {
    assert_eq!(parse_capacity(" \t100\r\n"), Some(100));
}

#[test]
fn capacity_leading_zeroes() {
    assert_eq!(parse_capacity("007\n"), Some(7));
}

#[test]
fn capacity_zero() {
    assert_eq!(parse_capacity("0"), Some(0));
}

#[test]
fn capacity_empty_or_blank_is_rejected() {
    assert_eq!(parse_capacity(""), None);
    assert_eq!(parse_capacity(" \n\t"), None);
}

#[test]
fn capacity_non_numeric_is_rejected() {
    assert_eq!(parse_capacity("12a"), None);
    assert_eq!(parse_capacity("-5"), None);
    assert_eq!(parse_capacity("4 2"), None);
    assert_eq!(parse_capacity("charging"), None);
}

#[test]
fn capacity_at_and_over_the_word_limit() {
    assert_eq!(parse_capacity("18446744073709551615"), Some(u64::MAX));
    assert_eq!(parse_capacity("18446744073709551616"), None);
    assert_eq!(parse_capacity("99999999999999999999999"), None);
}

#[test]
fn status_literals() {
    assert_eq!(parse_status("Charging"), BattStatus::Charging);
    assert_eq!(parse_status("Full"), BattStatus::Full);
    assert_eq!(parse_status("Discharging"), BattStatus::Discharging);
}

#[test]
fn status_trims_whitespace() {
    assert_eq!(parse_status("Discharging\n"), BattStatus::Discharging);
    assert_eq!(parse_status("  Full \r\n"), BattStatus::Full);
}

#[test]
fn status_anything_else_is_unknown() {
    assert_eq!(parse_status(""), BattStatus::Unknown);
    assert_eq!(parse_status("charging"), BattStatus::Unknown);
    assert_eq!(parse_status("Not charging"), BattStatus::Unknown);
}

#[test]
fn trim_strips_both_ends_only() {
    assert_eq!(trim("  a b \n"), "a b");
    assert_eq!(trim(""), "");
    assert_eq!(trim("x"), "x");
}

#[test]
fn reading_combines_both_files() {
    let r = reading_from_texts("25\n", "Discharging\n");
    assert_eq!(r.percentage, 25);
    assert_eq!(r.status, BattStatus::Discharging);
}

#[test]
fn unreadable_capacity_degrades_to_unknown() {
    let r = reading_from_texts("n/a", "Discharging");
    assert_eq!(r.percentage, 0);
    assert_eq!(r.status, BattStatus::Unknown);
}
