use recap_bot::repositories::chat_members::{flat_flat_top_users, initial_message_count, FlatMemberWithMessage};

fn row(id: i64, count: i64, text: &str, at: i64) -> FlatMemberWithMessage {
    FlatMemberWithMessage {
        id,
        username: if id == 2 { Some("two".to_string()) } else { None },
        first_name: format!("user{id}"),
        message_count: count,
        last_seen_at: 100 + id,
        is_premium: id == 1,
        message_text: text.to_string(),
        message_created_at: at,
    }
}

#[test]
fn groups_rows_by_member_and_ranks_by_count() {
    let rows = vec![row(1, 2, "a1", 10), row(2, 5, "b1", 20), row(1, 2, "a2", 5), row(3, 2, "c1", 1), row(2, 5, "b2", 3)];
    let members = flat_flat_top_users(rows);
    let ids: Vec<i64> = members.iter().map(|m| m.id).collect();
    assert_eq!(ids, vec![2, 1, 3]);
    let texts: Vec<Vec<&str>> = members.iter().map(|m| m.messages.iter().map(|x| x.text.as_str()).collect()).collect();
    assert_eq!(texts, vec![vec!["b1", "b2"], vec!["a1", "a2"], vec!["c1"]]);
    assert_eq!(members[0].username.as_deref(), Some("two"));
    assert_eq!(members[1].first_name, "user1");
    assert!(members[1].is_premium);
    assert_eq!(members[1].last_seen_at, 101);
    assert_eq!(members[1].messages[1].created_at, 5);
}

#[test]
fn no_rows_no_members() {
    assert!(flat_flat_top_users(vec![]).is_empty());
}

#[test]
fn message_count_on_first_sight() {
    assert_eq!(initial_message_count(true), 1);
    assert_eq!(initial_message_count(false), 0);
}
