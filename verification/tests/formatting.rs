//! Formatting helper tests.

use morpheus::format::{kebab_to_title_case, seconds_to_hour_minute, u64_to_decimal};

#[test]
fn decimal_rendering() {
    assert_eq!(u64_to_decimal(0), "0");
    assert_eq!(u64_to_decimal(7), "7");
    assert_eq!(u64_to_decimal(10), "10");
    assert_eq!(u64_to_decimal(30), "30");
    assert_eq!(u64_to_decimal(4294967295), "4294967295");
    assert_eq!(u64_to_decimal(18446744073709551615), "18446744073709551615");
}

#[test]
fn hours_when_at_least_two() {
    assert_eq!(seconds_to_hour_minute(7200), "2 hours");
    assert_eq!(seconds_to_hour_minute(7260), "2 hours");
    assert_eq!(seconds_to_hour_minute(36000), "10 hours");
}

#[test]
fn minutes_when_at_least_two() {
    assert_eq!(seconds_to_hour_minute(120), "2 minutes");
    assert_eq!(seconds_to_hour_minute(5400), "30 minutes");
    assert_eq!(seconds_to_hour_minute(3720), "2 minutes");
}

#[test]
fn the_singular_phrases() {
    assert_eq!(seconds_to_hour_minute(3600), "1 hour");
    assert_eq!(seconds_to_hour_minute(3660), "1 hour");
    assert_eq!(seconds_to_hour_minute(3719), "1 hour");
    assert_eq!(seconds_to_hour_minute(60), "1 minute");
    assert_eq!(seconds_to_hour_minute(119), "1 minute");
}

#[test]
fn less_than_a_minute() {
    assert_eq!(seconds_to_hour_minute(0), "Less than a minute");
    assert_eq!(seconds_to_hour_minute(59), "Less than a minute");
    assert_eq!(seconds_to_hour_minute(-90), "Less than a minute");
    assert_eq!(seconds_to_hour_minute(-7200), "Less than a minute");
}

#[test]
fn kebab_becomes_title_case() {
    assert_eq!(kebab_to_title_case("power-saver"), "Power Saver");
    assert_eq!(kebab_to_title_case("balanced"), "Balanced");
    assert_eq!(kebab_to_title_case("performance"), "Performance");
}

#[test]
fn kebab_edge_cases() {
    assert_eq!(kebab_to_title_case(""), "");
    assert_eq!(kebab_to_title_case("-"), " ");
    assert_eq!(kebab_to_title_case("a--b"), "A  B");
    assert_eq!(kebab_to_title_case("-leading"), " Leading");
    assert_eq!(kebab_to_title_case("trailing-"), "Trailing ");
    assert_eq!(kebab_to_title_case("already Upper"), "Already Upper");
}

#[test]
fn kebab_uses_the_full_uppercase_mapping() {
    assert_eq!(kebab_to_title_case("\u{df}-mode"), "SS Mode");
}
