//! The jobs that run beside the execution of tasks.

pub mod exchange;
pub mod options;
