use recap_bot::domain::promts::Prompt;
use recap_bot::errors::AppError;

#[test]
fn error_messages() {
    assert_eq!(AppError::SaveMessage("x".to_string()).to_string(), "Save message error: x");
    assert_eq!(AppError::EmptyChatId(5).to_string(), "Empty chat id for message(5)");
    assert_eq!(AppError::EmptyUserId(5, -7).to_string(), "Empty user id for message(5), chat_id: -7");
    assert_eq!(
        AppError::InsertChatError(-100, "boom".to_string()).to_string(),
        "Error when isert or update chat, chat_id: -100, error: boom"
    );
    assert_eq!(
        AppError::SelectMessagesError(1, "e".to_string()).to_string(),
        "Select messages error for chat_id: 1: e"
    );
    assert_eq!(AppError::AiResponse("t".to_string()).to_string(), "Error fetching ai response: t");
    assert_eq!(AppError::PromptNotFound(Prompt::Recap).to_string(), "Prompt(recap) not found");
    assert_eq!(AppError::DbError("d".to_string()).to_string(), "Db query error: d");
}

#[test]
fn error_message_extreme_ids() {
    assert_eq!(AppError::EmptyChatId(i64::MIN).to_string(), "Empty chat id for message(-9223372036854775808)");
}

#[test]
fn prompt_names() {
    assert_eq!(Prompt::Recap.to_string(), "recap");
    assert_eq!(Prompt::TopMembers.to_string(), "top_members");
    assert_eq!(Prompt::ResponseToUser.to_string(), "response_to_user");
    assert_eq!(Prompt::UserRecap.to_string(), "user_recap");
}
