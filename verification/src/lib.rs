//! The logic of Jinx, a Discord bot that grants roles to users who register Jinxxy license keys.

pub mod bot;
pub mod cli_args;
pub mod constants;
pub mod db;
pub mod error;
pub mod http;
pub mod laws;
pub mod license;
pub mod pattern;
pub mod text;
pub mod time;
