//! Tasks.

use crate::entity::project::ProjectRow;
use crate::entity::time::UtcTime;
use serde_json::Value;
use uuid::Uuid;
use vstd::prelude::*;

verus! {

/// Where a task stands.
#[derive(Debug, Clone, Copy, PartialEq, Eq, Structural)]
pub enum TaskStatus {
    New,
    InProgress,
    Finished,
    Failed,
    Retried,
}

impl TaskStatus {
    /// The name under which the status is stored.
    pub open spec fn spec_label(self) -> Seq<char> {
        match self {
            TaskStatus::New => "new"@,
            TaskStatus::InProgress => "in_progress"@,
            TaskStatus::Retried => "retried"@,
            TaskStatus::Failed => "failed"@,
            TaskStatus::Finished => "finished"@,
        }
    }

    /// The name under which the status is stored.
    pub fn label(&self) -> (label: &'static str)
        ensures
            label@ == self.spec_label(),
    {
        match self {
            TaskStatus::New => "new",
            TaskStatus::InProgress => "in_progress",
            TaskStatus::Retried => "retried",
            TaskStatus::Failed => "failed",
            TaskStatus::Finished => "finished",
        }
    }
}

/// A stored name tells the status: no two statuses share one.
pub proof fn law_labels_are_distinct(first: TaskStatus, second: TaskStatus)
    ensures
        first.spec_label() == second.spec_label() <==> first == second,
{
    reveal_strlit("new");
    reveal_strlit("in_progress");
    reveal_strlit("retried");
    reveal_strlit("failed");
    reveal_strlit("finished");
    assert("new"@.len() == 3 && "in_progress"@.len() == 11 && "retried"@.len() == 7
        && "failed"@.len() == 6 && "finished"@.len() == 8);
}

/// A task as it is stored.
#[derive(Debug)]
pub struct TaskRow {
    pub id: Uuid,
    pub task_type: String,
    pub status: String,
    pub project_id: Uuid,
    pub retries: i32,
    pub name: String,
    pub external_id: Option<String>,
    pub schedule: Option<String>,
    pub start_at: i32,
    pub options: Value,
    pub created_at: UtcTime,
    pub updated_at: UtcTime,
}

/// A task together with its project.
#[derive(Debug)]
pub struct Task {
    pub id: Uuid,
    pub task_type: String,
    pub status: String,
    pub project: ProjectRow,
    pub retries: i32,
    pub name: String,
    pub external_id: Option<String>,
    pub external_modified_at: Option<UtcTime>,
    pub schedule: Option<String>,
    pub start_at: i32,
    pub options: Value,
    pub created_at: UtcTime,
    pub updated_at: UtcTime,
}

} // verus!
