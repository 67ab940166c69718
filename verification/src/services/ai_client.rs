use vstd::prelude::*;

use crate::errors::AppError;

verus! {

/// One message of a chat-completion request.
#[derive(Debug, Clone, PartialEq, Eq)]
pub struct Message {
    pub role: String,
    pub content: String,
}

/// A chat-completion request.
#[derive(Debug, Clone, PartialEq, Eq)]
pub struct RequestBody {
    pub messages: Vec<Message>,
    pub model: String,
}

/// A chat-completion response.
#[derive(Debug, Clone, PartialEq, Eq)]
pub struct ChatResponse {
    pub choices: Vec<Choice>,
    pub usage: Option<Usage>,
}

#[derive(Debug, Clone, PartialEq, Eq)]
pub struct Choice {
    pub message: ResponseMessage,
    pub finish_reason: Option<String>,
}

#[derive(Debug, Clone, PartialEq, Eq)]
pub struct ResponseMessage {
    pub content: String,
}

#[derive(Debug, Clone, PartialEq, Eq)]
pub struct Usage {
    pub prompt_tokens: u32,
    pub completion_tokens: u32,
    pub total_tokens: u32,
}

/// The request: the model, then a `system` message with the system prompt and
/// a `user` message with the user prompt.
pub fn request_body(model: &str, system_prompt: &str, user_prompt: String) -> (b: RequestBody)
    ensures
        b.model@ == model@,
        b.messages@.len() == 2,
        b.messages@[0].role@ == "system"@,
        b.messages@[0].content@ == system_prompt@,
        b.messages@[1].role@ == "user"@,
        b.messages@[1].content@ == user_prompt@,
{
    let mut messages: Vec<Message> = Vec::new();
    messages.push(Message { role: String::from_str("system"), content: String::from_str(system_prompt) });
    messages.push(Message { role: String::from_str("user"), content: user_prompt });
    RequestBody { messages, model: String::from_str(model) }
}

/// The text of the first choice, or an `AiResponse` error when there is none.
pub fn first_choice_content(response: ChatResponse) -> (r: Result<String, AppError>)
    ensures
        response.choices@.len() > 0 ==> (r matches Ok(s) && s@
            == response.choices@[0].message.content@),
        response.choices@.len() == 0 ==> (r matches Err(AppError::AiResponse(e)) && e@
            == "no choinces in response"@),
{
    let mut choices = response.choices;
    if choices.len() == 0 {
        return Err(AppError::AiResponse(String::from_str("no choinces in response")));
    }
    let first = choices.remove(0);
    Ok(first.message.content)
}

} // verus!
