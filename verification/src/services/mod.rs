pub mod ai_client;
pub mod messages;
pub mod recap;
pub mod response_to_user;
pub mod statistics;
pub mod user_recap;
