pub mod app;
pub mod commands;
pub mod clock;
pub mod config;
pub mod domain;
pub mod errors;
pub mod formatters;
pub mod handlers;
pub mod html;
pub mod infra;
pub mod metrics;
pub mod repositories;
pub mod services;
pub mod text;
pub mod validators;
