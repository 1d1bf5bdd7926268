//! The workers that execute tasks.

use crate::executor::workers::gerrit::{GerritError, GerritErrorView};
use crate::executor::workers::notifier::{NotifierError, NotifierErrorView};
use crate::executor::workers::teamcity::{TeamCityError, TeamCityErrorView};
use serde_json::Value;
use vstd::prelude::*;

pub mod gerrit;
pub mod notifier;
pub mod settings;
pub mod teamcity;

verus! {

/// The agent that a worker's HTTP client names.
pub const USER_AGENT: &'static str = "Platform-Bot";

/// How a worker is set up.
#[derive(Debug)]
pub struct WorkerConfig {
    pub name: String,
    pub options: Option<Value>,
}

/// The options of a worker after they have been read.
#[derive(Debug)]
pub enum WorkerOptions<T> {
    /// The worker has no options.
    Missing,
    /// The worker has other options than it needs.
    Invalid,
    Given(T),
}

/// Why a worker failed.
#[derive(Debug)]
pub enum WorkerError {
    Gerrit(GerritError),
    Notifier(NotifierError),
    TeamCity(TeamCityError),
    /// A failure without a kind of its own, by its message.
    Other(String),
}

/// A [`WorkerError`] with its texts as character sequences.
pub enum WorkerErrorView {
    Gerrit(GerritErrorView),
    Notifier(NotifierErrorView),
    TeamCity(TeamCityErrorView),
    Other(Seq<char>),
}

impl View for WorkerError {
    type V = WorkerErrorView;

    open spec fn view(&self) -> WorkerErrorView {
        match *self {
            WorkerError::Gerrit(error) => WorkerErrorView::Gerrit(error@),
            WorkerError::Notifier(error) => WorkerErrorView::Notifier(error@),
            WorkerError::TeamCity(error) => WorkerErrorView::TeamCity(error@),
            WorkerError::Other(text) => WorkerErrorView::Other(text@),
        }
    }
}

impl WorkerErrorView {
    /// The message that a person reads.
    pub open spec fn message(self) -> Seq<char> {
        match self {
            WorkerErrorView::Gerrit(error) => error.message(),
            WorkerErrorView::Notifier(error) => error.message(),
            WorkerErrorView::TeamCity(error) => error.message(),
            WorkerErrorView::Other(text) => text,
        }
    }
}

impl WorkerError {
    /// The message that a person reads.
    pub fn message(&self) -> (message: String)
        ensures
            message@ == self@.message(),
    {
        match self {
            WorkerError::Gerrit(error) => error.message(),
            WorkerError::Notifier(error) => error.message(),
            WorkerError::TeamCity(error) => error.message(),
            WorkerError::Other(text) => text.clone(),
        }
    }
}

/// A text, or a worker's error by its view.
pub open spec fn text_view(text: Result<String, WorkerError>) -> Result<
    Seq<char>,
    WorkerErrorView,
> {
    match text {
        Ok(text) => Ok(text@),
        Err(error) => Err(error@),
    }
}

/// Texts and errors as their views.
pub open spec fn text_views(texts: Seq<Result<String, WorkerError>>) -> Seq<
    Result<Seq<char>, WorkerErrorView>,
> {
    texts.map_values(|text: Result<String, WorkerError>| text_view(text))
}

} // verus!
