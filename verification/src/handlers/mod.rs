pub mod message;
pub mod rate_limit;
