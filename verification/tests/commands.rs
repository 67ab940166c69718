use recap_bot::commands::recap::parse_count;
use recap_bot::domain::consts::{DEFAULT_MSG_RECAP, MAX_MSG_RECAP};

#[test]
fn empty_argument_gives_default() {
    assert_eq!(parse_count(String::new()), DEFAULT_MSG_RECAP);
    assert_eq!(parse_count("   ".to_string()), DEFAULT_MSG_RECAP);
}

#[test]
fn number_is_taken() {
    assert_eq!(parse_count("10".to_string()), 10);
    assert_eq!(parse_count(" 7 ".to_string()), 7);
    assert_eq!(parse_count("+5".to_string()), 5);
}

#[test]
fn number_is_clamped() {
    assert_eq!(parse_count("0".to_string()), 1);
    assert_eq!(parse_count("1000".to_string()), MAX_MSG_RECAP);
    assert_eq!(parse_count("100".to_string()), 100);
}

#[test]
fn garbage_gives_default() {
    assert_eq!(parse_count("abc".to_string()), DEFAULT_MSG_RECAP);
    assert_eq!(parse_count("-5".to_string()), DEFAULT_MSG_RECAP);
    assert_eq!(parse_count("1 2".to_string()), DEFAULT_MSG_RECAP);
    assert_eq!(parse_count("99999999999999999999999999".to_string()), DEFAULT_MSG_RECAP);
}
