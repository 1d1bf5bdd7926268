//! The execution of tasks.

pub mod actions;
pub mod flow;
pub mod poll;
pub mod schedule;
pub mod system;
pub mod workers;
