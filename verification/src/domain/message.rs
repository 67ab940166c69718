use vstd::prelude::*;

verus! {

/// A Telegram user id.
pub type UserId = u64;

/// The shape in which a message is serialized.
#[derive(Debug, Clone, PartialEq, Eq)]
pub struct MessagePayload {
    pub message_id: i32,
    pub chat: Chat,
    pub date: i64,
    pub text: Option<String>,
    pub edit_date: Option<i64>,
    pub new_chat_members: Option<Vec<ChatMemberUpdate>>,
    pub left_chat_member: Option<Vec<ChatMemberUpdate>>,
}

#[derive(Debug, Clone, PartialEq, Eq)]
pub struct Chat {
    pub id: i64,
}

#[derive(Debug, Clone, PartialEq, Eq)]
pub struct From {
    pub id: UserId,
}

#[derive(Debug, Clone, PartialEq, Eq)]
pub struct ChatMemberUpdate {
    pub id: UserId,
}

} // verus!
