//! What is asked of the HTTP services Jinx depends on, and what their answers mean.

pub mod gumroad;
pub mod jinxxy;
pub mod update_checker;
