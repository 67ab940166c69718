use recap_bot::domain::user::User;
use recap_bot::errors::AppError;
use recap_bot::services::messages::{save, IncomingMessage, MessageRecord, SavePlan, UserRecord};

fn user() -> User {
    User {
        id: 77,
        first_name: "Ann".to_string(),
        last_name: Some("Lee".to_string()),
        is_bot: false,
        username: Some("ann".to_string()),
        is_premium: true,
    }
}

fn incoming() -> IncomingMessage {
    IncomingMessage {
        id: 9,
        chat_id: Some(-100),
        chat_title: Some("Chat".to_string()),
        date: 1000,
        from: Some(user()),
        is_common: true,
        text: Some("hello".to_string()),
        edit_date: Some(1010),
    }
}

#[test]
fn common_message_is_stored() {
    let plan = save(incoming()).unwrap();
    assert_eq!(
        plan,
        SavePlan::Store {
            chat_id: -100,
            chat_title: "Chat".to_string(),
            user: UserRecord {
                id: 77,
                first_name: "Ann".to_string(),
                last_name: Some("Lee".to_string()),
                is_bot: false,
                username: Some("ann".to_string()),
                is_premium: true,
            },
            member_chat_id: -100,
            member_user_id: 77,
            message: MessageRecord {
                chat_id: -100,
                message_id: 9,
                user_id: 77,
                text: "hello".to_string(),
                created_at: 1000,
                edited_at: Some(1010),
            },
        }
    );
}

#[test]
fn missing_title_and_text_become_empty() {
    let mut m = incoming();
    m.chat_title = None;
    m.text = None;
    match save(m).unwrap() {
        SavePlan::Store { chat_title, message, .. } => {
            assert_eq!(chat_title, "");
            assert_eq!(message.text, "");
        }
        SavePlan::Skip => panic!("expected a store"),
    }
}

#[test]
fn huge_user_id_wraps() {
    let mut m = incoming();
    let mut u = user();
    u.id = u64::MAX;
    m.from = Some(u);
    match save(m).unwrap() {
        SavePlan::Store { member_user_id, .. } => assert_eq!(member_user_id, -1),
        SavePlan::Skip => panic!("expected a store"),
    }
}

#[test]
fn service_message_is_skipped() {
    let mut m = incoming();
    m.is_common = false;
    assert_eq!(save(m), Ok(SavePlan::Skip));
}

#[test]
fn missing_chat_is_an_error() {
    let mut m = incoming();
    m.chat_id = None;
    assert_eq!(save(m), Err(AppError::EmptyChatId(9)));
}

#[test]
fn missing_author_is_an_error() {
    let mut m = incoming();
    m.from = None;
    assert_eq!(save(m), Err(AppError::EmptyUserId(9, -100)));
}
