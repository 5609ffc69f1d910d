//! What the commands of the bot decide and answer.

pub mod global_commands;
pub mod licenses;
pub mod link_form;
pub mod links;
pub mod owner_commands;
