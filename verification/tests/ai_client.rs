use recap_bot::errors::AppError;
use recap_bot::services::ai_client::{first_choice_content, request_body, ChatResponse, Choice, ResponseMessage};

#[test]
fn request_has_system_then_user_message() {
    let b = request_body("glm", "be brief", "summarize".to_string());
    assert_eq!(b.model, "glm");
    assert_eq!(b.messages.len(), 2);
    assert_eq!(b.messages[0].role, "system");
    assert_eq!(b.messages[0].content, "be brief");
    assert_eq!(b.messages[1].role, "user");
    assert_eq!(b.messages[1].content, "summarize");
}

#[test]
fn first_choice_is_taken() {
    let choice = |c: &str| Choice { message: ResponseMessage { content: c.to_string() }, finish_reason: None };
    let r = ChatResponse { choices: vec![choice("one"), choice("two")], usage: None };
    assert_eq!(first_choice_content(r), Ok("one".to_string()));
}

#[test]
fn no_choice_is_an_error() {
    let r = ChatResponse { choices: vec![], usage: None };
    assert_eq!(first_choice_content(r), Err(AppError::AiResponse("no choinces in response".to_string())));
}
