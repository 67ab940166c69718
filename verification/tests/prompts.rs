use recap_bot::app::Prompts;
use recap_bot::domain::promts::Prompt;
use recap_bot::errors::AppError;

#[test]
fn initialized_prompts_are_all_found() {
    let p = Prompts::init_prompts("r".to_string(), "t".to_string(), "u".to_string(), "ur".to_string());
    assert_eq!(p.get_promt_or_error(Prompt::Recap), Ok("r"));
    assert_eq!(p.get_promt_or_error(Prompt::TopMembers), Ok("t"));
    assert_eq!(p.get_promt_or_error(Prompt::ResponseToUser), Ok("u"));
    assert_eq!(p.get_promt_or_error(Prompt::UserRecap), Ok("ur"));
}

#[test]
fn missing_prompt_is_an_error() {
    let p = Prompts::new();
    assert_eq!(p.get_promt_or_error(Prompt::Recap), Err(AppError::PromptNotFound(Prompt::Recap)));
}

#[test]
fn insert_replaces_earlier_text() {
    let mut p = Prompts::new();
    p.insert(Prompt::Recap, "old".to_string());
    p.insert(Prompt::TopMembers, "top".to_string());
    p.insert(Prompt::Recap, "new".to_string());
    assert_eq!(p.get_promt_or_error(Prompt::Recap), Ok("new"));
    assert_eq!(p.get_promt_or_error(Prompt::TopMembers), Ok("top"));
    assert_eq!(p.get_promt_or_error(Prompt::UserRecap), Err(AppError::PromptNotFound(Prompt::UserRecap)));
}
