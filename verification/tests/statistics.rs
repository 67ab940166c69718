use recap_bot::repositories::chat_members::{MemberWithMessages, Message};
use recap_bot::services::statistics::{
    build_toxicity_input, build_user_block, display_name, format_top_members, toxicity_emoji,
    ToxicityCategory, ToxicityReport, UserToxicity,
};

fn member(id: i64, username: Option<&str>, first_name: &str, count: i64, premium: bool) -> MemberWithMessages {
    MemberWithMessages {
        id,
        username: username.map(|s| s.to_string()),
        first_name: first_name.to_string(),
        message_count: count,
        last_seen_at: 0,
        is_premium: premium,
        messages: vec![],
    }
}

#[test]
fn emoji_thresholds() {
    assert_eq!(toxicity_emoji(0), "🟢");
    assert_eq!(toxicity_emoji(3), "🟢");
    assert_eq!(toxicity_emoji(4), "🟡");
    assert_eq!(toxicity_emoji(6), "🟡");
    assert_eq!(toxicity_emoji(7), "🔴");
    assert_eq!(toxicity_emoji(255), "🔴");
}

#[test]
fn category_labels() {
    assert_eq!(ToxicityCategory::Mat.label(), "мат");
    assert_eq!(ToxicityCategory::Sexism.label(), "сексизм");
    assert_eq!(ToxicityCategory::Racism.label(), "расизм");
    assert_eq!(ToxicityCategory::Homophobia.label(), "гомофобия");
    assert_eq!(ToxicityCategory::Harassment.label(), "харассмент");
    assert_eq!(ToxicityCategory::Threats.label(), "угрозы");
    assert_eq!(ToxicityCategory::Slurs.label(), "оскорбления");
    assert_eq!(ToxicityCategory::Doxxing.label(), "деанон");
}

#[test]
fn user_block_lists_messages_oldest_first() {
    let mut m = member(7, None, "A", 2, false);
    m.messages = vec![
        Message { text: "new".to_string(), created_at: 7200 },
        Message { text: "old".to_string(), created_at: 60 },
    ];
    assert_eq!(build_user_block(&m), "=== USER_ID: 7 ===\n[00:01] old\n[02:00] new\n");
}

#[test]
fn toxicity_input_joins_blocks() {
    let a = member(1, None, "A", 1, false);
    let mut b = member(2, None, "B", 1, false);
    b.messages = vec![Message { text: "x".to_string(), created_at: 0 }];
    assert_eq!(build_toxicity_input(&[a, b]), "=== USER_ID: 1 ===\n\n=== USER_ID: 2 ===\n[00:00] x\n");
    assert_eq!(build_toxicity_input(&[]), "");
}

#[test]
fn member_name_escapes_and_marks_status() {
    assert_eq!(display_name(&member(1, Some("a<b>&"), "A", 1, true)), "@a&lt;b&gt;&amp; <i>премиум</i>");
    assert_eq!(display_name(&member(1, None, "B&C", 1, false)), "<i>B&amp;C</i> <i>бомж</i>");
}

#[test]
fn top_members_empty_chat() {
    let report = ToxicityReport { assessments: vec![] };
    assert_eq!(
        format_top_members(&[], &report),
        "В этом чате пока нет активных участников или бот еще не успел их запомнить."
    );
}

#[test]
fn top_members_ranking_with_last_assessment() {
    let rows = vec![member(10, Some("a<b"), "A", 5, true), member(20, None, "B&C", 3, false), member(30, None, "D", 1, false)];
    let report = ToxicityReport {
        assessments: vec![
            UserToxicity { user_id: 10, t_level: 2, categories: vec![ToxicityCategory::Mat] },
            UserToxicity { user_id: 20, t_level: 5, categories: vec![] },
            UserToxicity { user_id: 10, t_level: 8, categories: vec![ToxicityCategory::Mat, ToxicityCategory::Threats] },
        ],
    };
    let expected = "<b>🏆 Топ участников чата</b>\n\
1. @a&lt;b <i>премиум</i> — <b>5</b> сообщ.\n   🔴 токсичность: <b>8/10</b> — <i>мат, угрозы</i>\n\
2. <i>B&amp;C</i> <i>бомж</i> — <b>3</b> сообщ.\n   🟡 токсичность: <b>5/10</b>\n\
3. <i>D</i> <i>бомж</i> — <b>1</b> сообщ.\n";
    assert_eq!(format_top_members(&rows, &report), expected);
}

#[test]
fn ranking_ignores_assessment_order_and_strangers() {
    let rows = vec![member(10, Some("a"), "A", 5, true), member(20, None, "B", 3, false)];
    let a = UserToxicity { user_id: 10, t_level: 2, categories: vec![ToxicityCategory::Mat] };
    let b = UserToxicity { user_id: 20, t_level: 9, categories: vec![] };
    let stranger = UserToxicity { user_id: 99, t_level: 10, categories: vec![ToxicityCategory::Slurs] };
    let report = ToxicityReport { assessments: vec![a.clone(), b.clone()] };
    let report2 = ToxicityReport { assessments: vec![stranger, b, a] };
    assert_eq!(format_top_members(&rows, &report), format_top_members(&rows, &report2));
}
