pub mod chat_members;
pub mod messages;
