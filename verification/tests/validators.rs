use recap_bot::validators::username::{is_valid, normalize};

#[test]
fn valid_plain_handle() {
    assert!(is_valid("@bob"));
}

#[test]
fn valid_handle_with_spaces_around() {
    assert!(is_valid("  @bob_1\n"));
}

#[test]
fn valid_unicode_letters() {
    assert!(is_valid("@ЮзерИмя"));
}

#[test]
fn valid_lone_at_sign() {
    assert!(is_valid("@"));
}

#[test]
fn invalid_without_at() {
    assert!(!is_valid("bob"));
}

#[test]
fn invalid_empty() {
    assert!(!is_valid(""));
    assert!(!is_valid("   "));
}

#[test]
fn invalid_inner_space() {
    assert!(!is_valid("@bo b"));
}

#[test]
fn invalid_punctuation() {
    assert!(!is_valid("@bob!"));
    assert!(!is_valid("@bob-smith"));
}

#[test]
fn normalize_strips_at_and_spaces() {
    assert_eq!(normalize("  @bob_1 "), "bob_1");
    assert_eq!(normalize("@"), "");
}

#[test]
fn valid_username_normalizes() {
    let s = "\t@alice ";
    assert!(is_valid(s));
    assert_eq!(normalize(s), "alice");
}
