use catime::duration_parse::parse_duration_to_secs;
use catime::TimerEngine;

#[test]
fn parses_plain_seconds() {
    assert_eq!(parse_duration_to_secs("1500"), Some(1500));
}

#[test]
fn parses_mm_ss() {
    assert_eq!(parse_duration_to_secs("25:00"), Some(1500));
    assert_eq!(parse_duration_to_secs("70:05"), Some(4205));
}

#[test]
fn parses_hh_mm_ss() {
    assert_eq!(parse_duration_to_secs("01:25:00"), Some(5100));
}

#[test]
fn rejects_invalid() {
    assert_eq!(parse_duration_to_secs(""), None);
    assert_eq!(parse_duration_to_secs("abc"), None);
    assert_eq!(parse_duration_to_secs("12:70"), None);
    assert_eq!(parse_duration_to_secs("1:70:00"), None);
}

#[test]
fn trims_surrounding_whitespace() {
    assert_eq!(parse_duration_to_secs("  90\t\n"), Some(90));
    assert_eq!(parse_duration_to_secs("\u{3000}01:30\u{a0}"), Some(90));
    assert_eq!(parse_duration_to_secs("   "), None);
}

#[test]
fn plain_number_accepts_plus_sign_only() {
    assert_eq!(parse_duration_to_secs("+42"), Some(42));
    assert_eq!(parse_duration_to_secs("+"), None);
    assert_eq!(parse_duration_to_secs("-42"), None);
    assert_eq!(parse_duration_to_secs("+1:00"), None);
    assert_eq!(parse_duration_to_secs("4 2"), None);
}

#[test]
fn rejects_bad_clock_shapes() {
    assert_eq!(parse_duration_to_secs(":"), None);
    assert_eq!(parse_duration_to_secs("1:"), None);
    assert_eq!(parse_duration_to_secs(":30"), None);
    assert_eq!(parse_duration_to_secs("1:2:3:4"), None);
    assert_eq!(parse_duration_to_secs("12:60"), None);
    assert_eq!(parse_duration_to_secs("1:60:00"), None);
    assert_eq!(parse_duration_to_secs("1:00:60"), None);
    assert_eq!(parse_duration_to_secs("1: 00"), None);
}

#[test]
fn leading_field_may_exceed_sixty() {
    assert_eq!(parse_duration_to_secs("100:00:00"), Some(360_000));
    assert_eq!(parse_duration_to_secs("0:59"), Some(59));
    assert_eq!(parse_duration_to_secs("0"), Some(0));
}

#[test]
fn rejects_values_beyond_u64() {
    assert_eq!(parse_duration_to_secs("18446744073709551615"), Some(u64::MAX));
    assert_eq!(parse_duration_to_secs("18446744073709551616"), None);
    assert_eq!(parse_duration_to_secs("307445734561825861:00"), None);
    assert_eq!(parse_duration_to_secs("5124095576030431:00:15"), Some(u64::MAX));
    assert_eq!(parse_duration_to_secs("5124095576030431:00:16"), None);
}

#[test]
fn formatted_durations_read_back() {
    for n in [0u64, 1, 59, 60, 61, 599, 3599, 3600, 3661, 45296, 359_999, 360_000, u64::MAX] {
        assert_eq!(parse_duration_to_secs(&TimerEngine::format_duration(n)), Some(n));
    }
}
