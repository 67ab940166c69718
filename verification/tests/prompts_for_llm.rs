use recap_bot::repositories::messages::{StoredMessage, StoredUserMessage};
use recap_bot::services::recap::{format_for_llm, plan_recap, RecapPlan};
use recap_bot::services::response_to_user::get_user_prompt;
use recap_bot::services::user_recap;

fn msg(text: &str, at: i64) -> StoredMessage {
    StoredMessage {
        user_id: 1,
        username: Some("bob".to_string()),
        first_name: "Bob".to_string(),
        text: Some(text.to_string()),
        created_at: at,
    }
}

#[test]
fn mention_prompt() {
    assert_eq!(
        get_user_prompt(&[], Some("hi"), "@bob", None),
        "=== Context with last 0 messages ===\n\n \n\n@bob mentioned you: \"hi\""
    );
}

#[test]
fn reply_prompt() {
    let msgs = vec![msg("yo", 60)];
    assert_eq!(
        get_user_prompt(&msgs, None, "Bob", Some("prev")),
        "=== Context with last 1 messages ===\n\n --- @bob | 00:01 ---\nyo\n\nYour previous message: \"prev\"\n\nBob replied to it: \"\""
    );
}

#[test]
fn user_recap_prompt() {
    let msgs = vec![
        StoredUserMessage { text: " hey ".to_string(), created_at: 60 },
        StoredUserMessage { text: "/cmd".to_string(), created_at: 0 },
        StoredUserMessage { text: "later".to_string(), created_at: 120 },
    ];
    assert_eq!(
        user_recap::format_for_llm("bob", &msgs),
        "=== Messages from @bob ===\n\n| 00:01 ---\nhey\n\n| 00:02 ---\nlater\n\n"
    );
}

#[test]
fn recap_without_messages_replies_at_once() {
    assert_eq!(plan_recap(&[]), RecapPlan::Reply("Недостаточно сообщений для саммари.".to_string()));
    assert_eq!(plan_recap(&[msg("/help", 0)]), RecapPlan::Reply("Недостаточно сообщений для саммари.".to_string()));
}

#[test]
fn recap_asks_the_model() {
    let msgs = vec![msg("b", 120), msg("a", 60)];
    assert_eq!(format_for_llm(&msgs), "--- @bob | 00:01 ---\na\n\n--- @bob | 00:02 ---\nb");
    assert_eq!(plan_recap(&msgs), RecapPlan::AskAi("--- @bob | 00:01 ---\na\n\n--- @bob | 00:02 ---\nb".to_string()));
}
