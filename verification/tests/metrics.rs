use recap_bot::metrics::{db_query, llm_tokens, message_received, DbOp, MessageKind, TokenKind};
use std::time::Duration;

#[test]
fn message_counter_has_no_labels() {
    let c = message_received();
    assert_eq!(c.name, "bot_messages_received_total");
    assert_eq!(c.label, None);
    assert_eq!(c.by, 1);
}

#[test]
fn message_kind_names() {
    assert_eq!(MessageKind::Text.as_str(), "text");
    assert_eq!(MessageKind::Command.as_str(), "command");
    assert_eq!(MessageKind::Edit.as_str(), "edit");
}

#[test]
fn db_histogram() {
    let h = db_query(DbOp::InsertChat, Duration::from_millis(15));
    assert_eq!(h.name, "bot_db_query_seconds");
    assert_eq!(h.label_key, "operation");
    assert_eq!(h.label_value, "insert_chat");
    assert_eq!(h.elapsed, Duration::from_millis(15));
    assert_eq!(db_query(DbOp::InsertMessage, Duration::ZERO).label_value, "insert_message");
}

#[test]
fn token_counter() {
    let c = llm_tokens(TokenKind::Completion, 123);
    assert_eq!(c.name, "bot_llm_tokens_total");
    assert_eq!(c.label, Some(("kind", "completion")));
    assert_eq!(c.by, 123);
    assert_eq!(TokenKind::Prompt.as_str(), "prompt");
}
