//! The logic of a team notification bot: task scheduling, calendar events,
//! workers, notification actions and the errors its HTTP interface reports.

pub mod api;
pub mod entity;
pub mod error;
pub mod executor;
pub mod jobs;
pub mod json;
pub mod laws;
pub mod name_map;
pub mod retry;
pub mod template;
pub mod text;
