use recap_bot::formatters::ai_summary::{
    build_name_map, display_name, format_message, format_messages_for_llm,
};
use recap_bot::repositories::messages::StoredMessage;

fn msg(user_id: i64, username: Option<&str>, first_name: &str, text: Option<&str>, at: i64) -> StoredMessage {
    StoredMessage {
        user_id,
        username: username.map(|s| s.to_string()),
        first_name: first_name.to_string(),
        text: text.map(|s| s.to_string()),
        created_at: at,
    }
}

#[test]
fn display_name_prefers_username() {
    assert_eq!(display_name(&msg(1, Some("alice"), "Alice", None, 0)), "@alice");
}

#[test]
fn display_name_first_name() {
    assert_eq!(display_name(&msg(1, None, "Alice", None, 0)), "Alice");
}

#[test]
fn display_name_unknown_or_blank_falls_back_to_id() {
    assert_eq!(display_name(&msg(3, None, "Unknown", None, 0)), "user_3");
    assert_eq!(display_name(&msg(-4, None, "  ", None, 0)), "user_-4");
}

#[test]
fn name_map_upgrades_to_handle() {
    let msgs = vec![msg(1, None, "Al", None, 0), msg(1, Some("al"), "Al", None, 0), msg(1, Some("other"), "Al", None, 0)];
    let map = build_name_map(&msgs);
    assert_eq!(map.len(), 1);
    assert_eq!(map.get(&1).unwrap(), "@al");
}

#[test]
fn name_map_keeps_first_plain_name() {
    let msgs = vec![msg(1, None, "Al", None, 0), msg(1, None, "Alfred", None, 0), msg(2, None, "Bo", None, 0)];
    let map = build_name_map(&msgs);
    assert_eq!(map.len(), 2);
    assert_eq!(map.get(&1).unwrap(), "Al");
    assert_eq!(map.get(&2).unwrap(), "Bo");
}

#[test]
fn name_map_handle_is_never_replaced() {
    let msgs = vec![msg(5, Some("x"), "X", None, 0), msg(5, None, "Xavier", None, 0)];
    assert_eq!(build_name_map(&msgs).get(&5).unwrap(), "@x");
}

#[test]
fn format_message_time_and_trim() {
    assert_eq!(format_message("  hello \n", 0), Some("| 00:00 ---\nhello".to_string()));
    assert_eq!(format_message("hi", 3661), Some("| 01:01 ---\nhi".to_string()));
    assert_eq!(format_message("hi", 86399), Some("| 23:59 ---\nhi".to_string()));
    assert_eq!(format_message("hi", 1_700_000_000), Some("| 22:13 ---\nhi".to_string()));
}

#[test]
fn format_message_before_epoch() {
    assert_eq!(format_message("hi", -60), Some("| 23:59 ---\nhi".to_string()));
}

#[test]
fn format_message_skips_blank_and_commands() {
    assert_eq!(format_message("   ", 0), None);
    assert_eq!(format_message("", 0), None);
    assert_eq!(format_message("  /recap 10", 0), None);
}

#[test]
fn transcript_is_oldest_first_with_names() {
    let msgs = vec![
        msg(1, Some("alice"), "Alice", Some("second"), 3600),
        msg(2, None, "Bob", Some("/cmd"), 0),
        msg(1, None, "Alice", Some("  first  "), 60),
        msg(2, None, "Bob", None, 120),
    ];
    assert_eq!(
        format_messages_for_llm(&msgs),
        "--- @alice | 00:01 ---\nfirst\n\n--- @alice | 01:00 ---\nsecond"
    );
}

#[test]
fn transcript_empty() {
    assert_eq!(format_messages_for_llm(&[]), "");
    assert_eq!(format_messages_for_llm(&[msg(1, None, "A", Some("/x"), 0)]), "");
}
