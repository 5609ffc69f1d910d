//! What holds across the library, stated over what its functions are given and what they give back

pub mod answers;
pub mod basics;
pub mod cache;
pub mod commands;
pub mod db;
pub mod errors;
pub mod events;
pub mod jinxxy;
pub mod license;
pub mod licenses;
pub mod links;
pub mod migration;
pub mod notices;
pub mod refresh;
pub mod registration;
pub mod roles;
pub mod texts;
pub mod util;
