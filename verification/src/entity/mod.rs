//! The records that the bot keeps.

pub mod project;
pub mod task;
pub mod time;
