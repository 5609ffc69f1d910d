//! What the bot says and does.

pub mod cache;
pub mod commands;
pub mod error_handler;
pub mod event_handler;
pub mod message;
pub mod name_index;
pub mod refresh;
pub mod registration;
pub mod util;
