pub mod username;
