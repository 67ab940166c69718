use vstd::prelude::*;

use crate::domain::promts::Prompt;
use crate::text::{i64_to_decimal, int_decimal};

verus! {

/// The library's errors.
#[derive(Debug, Clone, PartialEq, Eq)]
pub enum AppError {
    SaveMessage(String),
    EmptyChatId(i64),
    EmptyUserId(i64, i64),
    InsertChatError(i64, String),
    SelectMessagesError(i64, String),
    AiResponse(String),
    PromptNotFound(Prompt),
    DbError(String),
}

impl AppError {
    /// The text that describes the error.
    pub open spec fn message(self) -> Seq<char> {
        match self {
            AppError::SaveMessage(e) => "Save message error: "@ + e@,
            AppError::EmptyChatId(m) => "Empty chat id for message("@ + int_decimal(m as int) + ")"@,
            AppError::EmptyUserId(m, c) => "Empty user id for message("@ + int_decimal(m as int)
                + "), chat_id: "@ + int_decimal(c as int),
            AppError::InsertChatError(c, e) => "Error when isert or update chat, chat_id: "@
                + int_decimal(c as int) + ", error: "@ + e@,
            AppError::SelectMessagesError(c, e) => "Select messages error for chat_id: "@
                + int_decimal(c as int) + ": "@ + e@,
            AppError::AiResponse(e) => "Error fetching ai response: "@ + e@,
            AppError::PromptNotFound(p) => "Prompt("@ + p.name() + ") not found"@,
            AppError::DbError(e) => "Db query error: "@ + e@,
        }
    }

    /// The text that describes the error.
    pub fn to_string(&self) -> (s: String)
        ensures
            s@ == self.message(),
    {
        match self {
            AppError::SaveMessage(e) => {
                let mut s = String::from_str("Save message error: ");
                s.append(e.as_str());
                s
            },
            AppError::EmptyChatId(m) => {
                let mut s = String::from_str("Empty chat id for message(");
                s.append(i64_to_decimal(*m).as_str());
                s.append(")");
                s
            },
            AppError::EmptyUserId(m, c) => {
                let mut s = String::from_str("Empty user id for message(");
                s.append(i64_to_decimal(*m).as_str());
                s.append("), chat_id: ");
                s.append(i64_to_decimal(*c).as_str());
                s
            },
            AppError::InsertChatError(c, e) => {
                let mut s = String::from_str("Error when isert or update chat, chat_id: ");
                s.append(i64_to_decimal(*c).as_str());
                s.append(", error: ");
                s.append(e.as_str());
                s
            },
            AppError::SelectMessagesError(c, e) => {
                let mut s = String::from_str("Select messages error for chat_id: ");
                s.append(i64_to_decimal(*c).as_str());
                s.append(": ");
                s.append(e.as_str());
                s
            },
            AppError::AiResponse(e) => {
                let mut s = String::from_str("Error fetching ai response: ");
                s.append(e.as_str());
                s
            },
            AppError::PromptNotFound(p) => {
                let mut s = String::from_str("Prompt(");
                s.append(p.to_string().as_str());
                s.append(") not found");
                s
            },
            AppError::DbError(e) => {
                let mut s = String::from_str("Db query error: ");
                s.append(e.as_str());
                s
            },
        }
    }
}

} // verus!
