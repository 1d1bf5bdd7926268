//! The worker that sends the notification that a task describes.

use crate::entity::task::Task;
use crate::executor::actions::zulip::ZULIP;
use crate::executor::actions::{notification_options, notification_view, Action};
use crate::executor::workers::settings::{config_value, get_config_value};
use crate::json::{json_rendering, json_view};
use crate::text::concat2;
use serde_json::Value;
use uuid::Uuid;
use vstd::prelude::*;

verus! {

/// Why a notification cannot be made.
#[derive(Debug)]
pub enum NotifierError {
    ConfigError(String),
    MissingFieldError(String),
}

/// A [`NotifierError`] with its text as a character sequence.
pub enum NotifierErrorView {
    ConfigError(Seq<char>),
    MissingFieldError(Seq<char>),
}

impl View for NotifierError {
    type V = NotifierErrorView;

    open spec fn view(&self) -> NotifierErrorView {
        match *self {
            NotifierError::ConfigError(text) => NotifierErrorView::ConfigError(text@),
            NotifierError::MissingFieldError(field) => NotifierErrorView::MissingFieldError(field@),
        }
    }
}

impl NotifierErrorView {
    /// The message that a person reads.
    pub open spec fn message(self) -> Seq<char> {
        match self {
            NotifierErrorView::ConfigError(text) => "Notifier configuration error: "@ + text,
            NotifierErrorView::MissingFieldError(field) => "Missing required field: "@ + field,
        }
    }
}

impl NotifierError {
    /// The message that a person reads.
    pub fn message(&self) -> (message: String)
        ensures
            message@ == self@.message(),
    {
        match self {
            NotifierError::ConfigError(text) =>
                concat2("Notifier configuration error: ", text.as_str()),
            NotifierError::MissingFieldError(field) =>
                concat2("Missing required field: ", field.as_str()),
        }
    }
}

/// What a notification needs.
#[derive(Debug)]
pub struct NotificationConfig {
    pub text: Value,
    pub channel: Value,
    pub topic: Value,
}

/// The worker that sends notifications.
#[derive(Debug)]
pub struct Notifier {}

/// The first setting of a notification that a task lacks.
pub open spec fn missing_setting(task: Task) -> Option<Seq<char>> {
    if config_value(task, "text"@) is None {
        Some("text"@)
    } else if config_value(task, "channel"@) is None {
        Some("channel"@)
    } else if config_value(task, "topic"@) is None {
        Some("topic"@)
    } else {
        None
    }
}

impl Notifier {
    /// A notifier, which needs no options and takes no notice of any.
    pub fn new(_config: Option<Value>) -> (notifier: Result<Notifier, NotifierError>)
        ensures
            notifier == Ok::<Notifier, NotifierError>(Notifier {  }),
    {
        Ok(Notifier {  })
    }

    /// Collects what a notification needs from the settings of `task`.
    pub fn validate_task_config(&self, task: &Task) -> (config: Result<
        NotificationConfig,
        NotifierError,
    >)
        ensures
            match config {
                Ok(config) => missing_setting(*task) is None && config_value(*task, "text"@)
                    == Some(json_view(config.text)) && config_value(*task, "channel"@) == Some(
                    json_view(config.channel),
                ) && config_value(*task, "topic"@) == Some(json_view(config.topic)),
                Err(error) => missing_setting(*task) matches Some(field) && error@
                    == NotifierErrorView::MissingFieldError(field),
            },
    {
        let text: Value = match get_config_value(task, "text") {
            Some(text) => text,
            None => {
                return Err(NotifierError::MissingFieldError("text".to_owned()));
            },
        };
        let channel: Value = match get_config_value(task, "channel") {
            Some(channel) => channel,
            None => {
                return Err(NotifierError::MissingFieldError("channel".to_owned()));
            },
        };
        let topic: Value = match get_config_value(task, "topic") {
            Some(topic) => topic,
            None => {
                return Err(NotifierError::MissingFieldError("topic".to_owned()));
            },
        };
        Ok(NotificationConfig { text, channel, topic })
    }

    /// Makes the action that sends a notification.
    pub fn create_notification_action(&self, task_id: Uuid, config: NotificationConfig) -> (action:
        Action)
        ensures
            action.name@ == ZULIP@,
            action.task_id == task_id,
            action.options@ == json_rendering(
                notification_view(
                    json_view(config.text),
                    json_view(config.channel),
                    json_view(config.topic),
                ),
            ),
    {
        Action {
            name: ZULIP.to_owned(),
            task_id,
            options: notification_options(config.text, config.channel, config.topic),
        }
    }

    /// The action that executes `task`.
    pub fn execute(&self, task: &Task) -> (action: Result<Action, NotifierError>)
        ensures
            match action {
                Ok(action) => missing_setting(*task) is None && is_notification(action, *task),
                Err(error) => missing_setting(*task) matches Some(field) && error@
                    == NotifierErrorView::MissingFieldError(field),
            },
    {
        match self.validate_task_config(task) {
            Ok(config) => Ok(self.create_notification_action(task.id, config)),
            Err(error) => Err(error),
        }
    }
}

/// An action sends the text of `task` to the channel and topic of `task`.
pub open spec fn is_notification(action: Action, task: Task) -> bool {
    &&& action.name@ == ZULIP@
    &&& action.task_id == task.id
    &&& action.options@ == json_rendering(
        notification_view(
            config_value(task, "text"@)->0,
            config_value(task, "channel"@)->0,
            config_value(task, "topic"@)->0,
        ),
    )
}

} // verus!
