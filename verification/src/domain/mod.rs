pub mod commands;
pub mod consts;
pub mod message;
pub mod promts;
pub mod user;
