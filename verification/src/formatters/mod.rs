pub mod ai_summary;
pub mod username;
