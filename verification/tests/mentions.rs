use recap_bot::domain::user::User;
use recap_bot::formatters::username::get_username;
use recap_bot::handlers::message::{is_mentioned, is_reply_to_bot};

#[test]
fn mention_with_trailing_punctuation() {
    assert!(is_mentioned(Some("hi @recap_bot!"), "recap_bot"));
    assert!(is_mentioned(Some("@recap_bot, hello"), "recap_bot"));
    assert!(is_mentioned(Some("what?\n@recap_bot..."), "recap_bot"));
    assert!(is_mentioned(Some("@recap_bot"), "recap_bot"));
}

#[test]
fn no_mention() {
    assert!(!is_mentioned(Some("hi@recap_bot"), "recap_bot"));
    assert!(!is_mentioned(Some("@recap_botx"), "recap_bot"));
    assert!(!is_mentioned(Some("@recap_bot_"), "recap_bot"));
    assert!(!is_mentioned(Some("@Recap_bot"), "recap_bot"));
    assert!(!is_mentioned(Some(""), "recap_bot"));
    assert!(!is_mentioned(None, "recap_bot"));
}

#[test]
fn reply_to_bot() {
    assert!(is_reply_to_bot(Some(5), 5));
    assert!(!is_reply_to_bot(Some(6), 5));
    assert!(!is_reply_to_bot(None, 5));
}

#[test]
fn addressing_a_user() {
    let mut u = User { id: 1, first_name: "Ann".to_string(), last_name: None, is_bot: false, username: Some("ann".to_string()), is_premium: false };
    assert_eq!(get_username(&u), "@ann");
    u.username = None;
    assert_eq!(get_username(&u), "Ann");
}
