//! Core logic of the QA question-and-answer service, shared by its HTTP
//! server and its command-line client.

pub mod app_error;
pub mod auth;
pub mod cache;
pub mod client;
pub mod display;
pub mod pagination;
pub mod server_config;
pub mod text;
pub mod time_ago;
