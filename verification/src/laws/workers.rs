//! Laws of settings and of the worker that sends notifications.

use crate::entity::task::Task;
use crate::executor::actions::Action;
use crate::executor::workers::notifier::{
    NotificationConfig, Notifier, NotifierError, NotifierErrorView,
};
use crate::executor::workers::settings::get_config_value;
use crate::json::{json_view, optional_view, text_member, JsonView};
use crate::laws::actions::{lemma_notification_says, says};
use serde_json::Value;
use uuid::Uuid;
use vstd::prelude::*;

verus! {

/// A setting is the task's own, or else the one that its project has for tasks of
/// its type.
pub proof fn law_setting(task: &Task, key: &str, value: Option<Value>)
    requires
        call_ensures(get_config_value, (task, key), value),
    ensures
        ({
            let own = json_view(task.options).member(key@);
            let section = json_view(task.project.options).member(task.task_type@);
            match (own, section) {
                (Some(setting), _) => value matches Some(value) && json_view(value) == setting,
                (None, Some(section)) => optional_view(value) == section.member(key@),
                (None, None) => value is None,
            }
        }),
{
}

/// The text of a member is told whole where the member is a text.
pub proof fn law_text_of_a_member(value: &Value, key: &str, text: Option<&str>)
    requires
        call_ensures(text_member, (value, key), text),
    ensures
        match json_view(*value).member(key@) {
            Some(JsonView::Text(member)) => text matches Some(text) && text@ == member,
            _ => text is None,
        },
{
}

/// A notification needs a text, a channel and a topic. The first that is missing
/// is named; where all are there, they are sent.
pub proof fn law_notification(
    notifier: &Notifier,
    task: &Task,
    text: Option<Value>,
    channel: Option<Value>,
    topic: Option<Value>,
    config: Result<NotificationConfig, NotifierError>,
    action: Result<Action, NotifierError>,
)
    requires
        call_ensures(get_config_value, (task, "text"), text),
        call_ensures(get_config_value, (task, "channel"), channel),
        call_ensures(get_config_value, (task, "topic"), topic),
        call_ensures(Notifier::validate_task_config, (notifier, task), config),
        call_ensures(Notifier::execute, (notifier, task), action),
    ensures
        match (text, channel, topic) {
            (Some(text), Some(channel), Some(topic)) => {
                &&& config matches Ok(config) && json_view(config.text) == json_view(text)
                    && json_view(config.channel) == json_view(channel) && json_view(config.topic)
                    == json_view(topic)
                &&& action matches Ok(action) && action.name@ == "zulip"@ && action.task_id
                    == task.id && says(
                    action.options@,
                    json_view(text),
                    json_view(channel),
                    json_view(topic),
                )
            },
            _ => {
                let missing = NotifierErrorView::MissingFieldError(
                    if text is None {
                        "text"@
                    } else if channel is None {
                        "channel"@
                    } else {
                        "topic"@
                    },
                );
                &&& config matches Err(error) && error@ == missing
                &&& action matches Err(error) && error@ == missing
            },
        },
{
    if text is Some && channel is Some && topic is Some {
        lemma_notification_says(
            json_view(text->0),
            json_view(channel->0),
            json_view(topic->0),
        );
    }
}

/// An action is for the task and says what the configuration holds.
pub proof fn law_notification_action(
    notifier: &Notifier,
    task_id: Uuid,
    config: NotificationConfig,
    action: Action,
)
    requires
        call_ensures(Notifier::create_notification_action, (notifier, task_id, config), action),
    ensures
        action.name@ == "zulip"@,
        action.task_id == task_id,
        says(
            action.options@,
            json_view(config.text),
            json_view(config.channel),
            json_view(config.topic),
        ),
{
    lemma_notification_says(
        json_view(config.text),
        json_view(config.channel),
        json_view(config.topic),
    );
}

/// There is always a notifier.
pub proof fn law_notifier(config: Option<Value>, notifier: Result<Notifier, NotifierError>)
    requires
        call_ensures(Notifier::new, (config,), notifier),
    ensures
        notifier is Ok,
{
}

} // verus!
