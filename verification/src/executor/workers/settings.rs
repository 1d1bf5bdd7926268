//! The settings of a task.

use crate::entity::task::Task;
use crate::json::{json_clone, json_get, json_view, optional_view, JsonView};
use serde_json::Value;
use vstd::prelude::*;

verus! {

/// The setting of `task` under `key`: its own, or else the one that its
/// project has for tasks of its type.
pub open spec fn config_value(task: Task, key: Seq<char>) -> Option<JsonView> {
    match json_view(task.options).member(key) {
        Some(setting) => Some(setting),
        None => match json_view(task.project.options).member(task.task_type@) {
            Some(section) => section.member(key),
            None => None,
        },
    }
}

/// Retrieves the setting of `task` under `key` from its own options, or else
/// from the options that its project has for tasks of its type.
pub fn get_config_value(task: &Task, key: &str) -> (value: Option<Value>)
    ensures
        optional_view(value) == config_value(*task, key@),
{
    match json_get(&task.options, key) {
        Some(own) => Some(json_clone(own)),
        None => match json_get(&task.project.options, task.task_type.as_str()) {
            Some(section) => match json_get(section, key) {
                Some(shared) => Some(json_clone(shared)),
                None => None,
            },
            None => None,
        },
    }
}

/// A task's own setting wins over its project's.
pub proof fn law_own_setting_wins(task: Task, key: Seq<char>)
    requires
        json_view(task.options).member(key) is Some,
    ensures
        config_value(task, key) == json_view(task.options).member(key),
{
}

/// Without a setting of its own, a task has the one that its project keeps for
/// the task's type; the settings for other types do not matter.
pub proof fn law_project_setting_is_the_fallback(
    task: Task,
    key: Seq<char>,
    members: Map<Seq<char>, JsonView>,
)
    requires
        json_view(task.options).member(key) is None,
        json_view(task.project.options) == JsonView::Object(members),
    ensures
        members.contains_key(task.task_type@) ==> config_value(task, key)
            == members[task.task_type@].member(key),
        !members.contains_key(task.task_type@) ==> config_value(task, key) is None,
{
}

} // verus!
