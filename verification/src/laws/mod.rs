//! What the library promises of its functions.
//!
//! Each law speaks of calls and of what they return. It says in terms of the
//! arguments what a result must be, or how the results of several calls belong
//! together.

pub mod actions;
pub mod errors;
pub mod exchange;
pub mod gerrit;
pub mod options;
pub mod retry;
pub mod schedule;
pub mod system;
pub mod tasks;
pub mod teamcity;
pub mod text;
pub mod workers;
