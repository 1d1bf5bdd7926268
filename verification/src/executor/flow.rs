//! The life of a task from its start to its end.

use crate::entity::task::Task;
use crate::executor::schedule::{
    calculate_next_run, calculate_next_run_at, clock_tells, next_run, run_view, ScheduleError,
};
use crate::text::concat2;
use vstd::prelude::*;

verus! {

/// Why the processing of a task broke off.
#[derive(Debug)]
pub enum TaskError {
    /// The task could not be marked as running.
    MarkRunning,
    /// There is no worker for this type of task.
    UnknownWorker(String),
    /// No next run can be told.
    NextRun,
    /// The next run could not be stored.
    Schedule,
    /// The task could not be marked as completed.
    MarkCompleted,
    /// The task could not be marked as failed.
    MarkFailed,
}

/// A [`TaskError`] with its text as a character sequence.
pub enum TaskErrorView {
    MarkRunning,
    UnknownWorker(Seq<char>),
    NextRun,
    Schedule,
    MarkCompleted,
    MarkFailed,
}

impl View for TaskError {
    type V = TaskErrorView;

    open spec fn view(&self) -> TaskErrorView {
        match *self {
            TaskError::MarkRunning => TaskErrorView::MarkRunning,
            TaskError::UnknownWorker(task_type) => TaskErrorView::UnknownWorker(task_type@),
            TaskError::NextRun => TaskErrorView::NextRun,
            TaskError::Schedule => TaskErrorView::Schedule,
            TaskError::MarkCompleted => TaskErrorView::MarkCompleted,
            TaskError::MarkFailed => TaskErrorView::MarkFailed,
        }
    }
}

impl TaskErrorView {
    /// The message that a person reads.
    pub open spec fn message(self) -> Seq<char> {
        match self {
            TaskErrorView::MarkRunning => "Failed to set task status to in_progress"@,
            TaskErrorView::UnknownWorker(task_type) => "Unknown worker type: "@ + task_type,
            TaskErrorView::NextRun => "Failed to calculate next run time"@,
            TaskErrorView::Schedule => "Failed to schedule next task run"@,
            TaskErrorView::MarkCompleted => "Failed to mark task as completed"@,
            TaskErrorView::MarkFailed => "Failed to mark task as failed"@,
        }
    }
}

impl TaskError {
    /// The message that a person reads.
    pub fn message(&self) -> (message: String)
        ensures
            message@ == self@.message(),
    {
        match self {
            TaskError::MarkRunning => "Failed to set task status to in_progress".to_owned(),
            TaskError::UnknownWorker(task_type) =>
                concat2("Unknown worker type: ", task_type.as_str()),
            TaskError::NextRun => "Failed to calculate next run time".to_owned(),
            TaskError::Schedule => "Failed to schedule next task run".to_owned(),
            TaskError::MarkCompleted => "Failed to mark task as completed".to_owned(),
            TaskError::MarkFailed => "Failed to mark task as failed".to_owned(),
        }
    }
}

/// What is being done with a task. Everything but the end is work that either
/// succeeds or fails.
#[derive(Debug)]
pub enum TaskFlow {
    /// Mark the task as running.
    MarkRunning,
    /// Let the worker execute the task.
    Execute,
    /// Store when the task runs next.
    Schedule(i32),
    /// Mark the task as completed.
    MarkCompleted,
    /// Mark the task as failed.
    MarkFailed,
    /// Nothing: the processing has ended.
    Finished(Result<(), TaskError>),
}

/// A [`TaskFlow`] with its error as a view.
pub enum TaskFlowView {
    MarkRunning,
    Execute,
    Schedule(i32),
    MarkCompleted,
    MarkFailed,
    Finished(Result<(), TaskErrorView>),
}

impl View for TaskFlow {
    type V = TaskFlowView;

    open spec fn view(&self) -> TaskFlowView {
        match *self {
            TaskFlow::MarkRunning => TaskFlowView::MarkRunning,
            TaskFlow::Execute => TaskFlowView::Execute,
            TaskFlow::Schedule(start_at) => TaskFlowView::Schedule(start_at),
            TaskFlow::MarkCompleted => TaskFlowView::MarkCompleted,
            TaskFlow::MarkFailed => TaskFlowView::MarkFailed,
            TaskFlow::Finished(Ok(_)) => TaskFlowView::Finished(Ok(())),
            TaskFlow::Finished(Err(error)) => TaskFlowView::Finished(Err(error@)),
        }
    }
}

impl TaskFlowView {
    /// Whether the time decides what is done after work that succeeded or failed:
    /// it does after the execution of a task that is to run again.
    pub open spec fn depends_on_time(self, task: Task, succeeded: bool) -> bool {
        self == TaskFlowView::Execute && succeeded && task.schedule is Some
    }

    /// What is done after work that succeeded or failed. `known_worker` tells
    /// whether there is a worker for the task's type, and `now` is the time.
    pub open spec fn after(
        self,
        task: Task,
        known_worker: bool,
        succeeded: bool,
        now: i64,
    ) -> TaskFlowView {
        match self {
            TaskFlowView::MarkRunning => if !succeeded {
                TaskFlowView::Finished(Err(TaskErrorView::MarkRunning))
            } else if known_worker {
                TaskFlowView::Execute
            } else {
                TaskFlowView::Finished(Err(TaskErrorView::UnknownWorker(task.task_type@)))
            },
            TaskFlowView::Execute => if !succeeded {
                TaskFlowView::MarkFailed
            } else if task.schedule is None {
                TaskFlowView::MarkCompleted
            } else {
                match next_run(task, now) {
                    Ok(start_at) => TaskFlowView::Schedule(start_at),
                    Err(_) => TaskFlowView::Finished(Err(TaskErrorView::NextRun)),
                }
            },
            TaskFlowView::Schedule(_) => TaskFlowView::Finished(
                if succeeded {
                    Ok(())
                } else {
                    Err(TaskErrorView::Schedule)
                },
            ),
            TaskFlowView::MarkCompleted => TaskFlowView::Finished(
                if succeeded {
                    Ok(())
                } else {
                    Err(TaskErrorView::MarkCompleted)
                },
            ),
            TaskFlowView::MarkFailed => TaskFlowView::Finished(
                if succeeded {
                    Ok(())
                } else {
                    Err(TaskErrorView::MarkFailed)
                },
            ),
            TaskFlowView::Finished(outcome) => TaskFlowView::Finished(outcome),
        }
    }
}

impl TaskFlow {
    /// The first work on a task.
    pub fn start() -> (flow: TaskFlow)
        ensures
            flow@ == TaskFlowView::MarkRunning,
    {
        TaskFlow::MarkRunning
    }

    /// Decides what follows on work that succeeded or failed. `next` is the next
    /// run of the task, where it is needed.
    fn decide(
        self,
        task: &Task,
        known_worker: bool,
        succeeded: bool,
        next: Option<i32>,
        Ghost(now): Ghost<i64>,
    ) -> (flow: TaskFlow)
        requires
            self@.depends_on_time(*task, succeeded) ==> match next {
                Some(start_at) => next_run(*task, now) matches Ok(run) && run == start_at,
                None => next_run(*task, now) is Err,
            },
        ensures
            flow@ == self@.after(*task, known_worker, succeeded, now),
    {
        match self {
            TaskFlow::MarkRunning => if !succeeded {
                TaskFlow::Finished(Err(TaskError::MarkRunning))
            } else if known_worker {
                TaskFlow::Execute
            } else {
                TaskFlow::Finished(Err(TaskError::UnknownWorker(task.task_type.clone())))
            },
            TaskFlow::Execute => if !succeeded {
                TaskFlow::MarkFailed
            } else if task.schedule.is_none() {
                TaskFlow::MarkCompleted
            } else {
                match next {
                    Some(start_at) => TaskFlow::Schedule(start_at),
                    None => TaskFlow::Finished(Err(TaskError::NextRun)),
                }
            },
            TaskFlow::Schedule(_) => if succeeded {
                TaskFlow::Finished(Ok(()))
            } else {
                TaskFlow::Finished(Err(TaskError::Schedule))
            },
            TaskFlow::MarkCompleted => if succeeded {
                TaskFlow::Finished(Ok(()))
            } else {
                TaskFlow::Finished(Err(TaskError::MarkCompleted))
            },
            TaskFlow::MarkFailed => if succeeded {
                TaskFlow::Finished(Ok(()))
            } else {
                TaskFlow::Finished(Err(TaskError::MarkFailed))
            },
            TaskFlow::Finished(outcome) => TaskFlow::Finished(outcome),
        }
    }

    /// Whether the next run of the task decides what follows.
    fn needs_next_run(&self, task: &Task, succeeded: bool) -> (needed: bool)
        ensures
            needed == self@.depends_on_time(*task, succeeded),
    {
        match self {
            TaskFlow::Execute => succeeded && task.schedule.is_some(),
            _ => false,
        }
    }

    /// Goes on after work that succeeded or failed, when the time is `now`.
    pub fn advance_at(self, task: &Task, known_worker: bool, succeeded: bool, now: i64) -> (flow:
        TaskFlow)
        ensures
            flow@ == self@.after(*task, known_worker, succeeded, now),
    {
        let next: Option<i32> = if self.needs_next_run(task, succeeded) {
            calculate_next_run_at(task, now).ok()
        } else {
            None
        };
        self.decide(task, known_worker, succeeded, next, Ghost(now))
    }

    /// Goes on after work that succeeded or failed, by the clock of this
    /// machine, which is asked only where the time decides.
    pub fn advance(self, task: &Task, known_worker: bool, succeeded: bool) -> (flow: TaskFlow)
        ensures
            if self@.depends_on_time(*task, succeeded) {
                exists|now: i64|
                    clock_tells(now) && flow@ == #[trigger] self@.after(
                        *task,
                        known_worker,
                        succeeded,
                        now,
                    )
            } else {
                forall|now: i64|
                    flow@ == #[trigger] self@.after(*task, known_worker, succeeded, now)
            },
    {
        if self.needs_next_run(task, succeeded) {
            let run: Result<i32, ScheduleError> = calculate_next_run(task);
            let ghost now = choose|now: i64|
                clock_tells(now) && run_view(run) == #[trigger] next_run(*task, now);
            self.decide(task, known_worker, succeeded, run.ok(), Ghost(now))
        } else {
            self.decide(task, known_worker, succeeded, None, Ghost(0))
        }
    }
}

// ---------------------------------------------------------------------------
// Laws
// ---------------------------------------------------------------------------

/// What is being done with a task after pieces of work that ended as in
/// `outcomes`.
pub open spec fn flow_after(
    task: Task,
    known_worker: bool,
    outcomes: Seq<bool>,
    now: i64,
) -> TaskFlowView
    decreases outcomes.len(),
{
    if outcomes.len() == 0 {
        TaskFlowView::MarkRunning
    } else {
        flow_after(task, known_worker, outcomes.drop_last(), now).after(
            task,
            known_worker,
            outcomes.last(),
            now,
        )
    }
}

/// The processing of a task ends after three pieces of work at the latest.
pub proof fn law_processing_ends(task: Task, known_worker: bool, outcomes: Seq<bool>, now: i64)
    requires
        outcomes.len() >= 3,
    ensures
        flow_after(task, known_worker, outcomes, now) is Finished,
    decreases outcomes.len(),
{
    if outcomes.len() > 3 {
        law_processing_ends(task, known_worker, outcomes.drop_last(), now);
    } else {
        reveal_with_fuel(flow_after, 4);
    }
}

/// A task is executed only after it has been marked as running, only if there
/// is a worker for its type, and only once.
pub proof fn law_task_is_executed_once(
    task: Task,
    known_worker: bool,
    outcomes: Seq<bool>,
    now: i64,
)
    ensures
        flow_after(task, known_worker, outcomes, now) == TaskFlowView::Execute <==> known_worker
            && outcomes =~= seq![true],
{
    if outcomes.len() >= 3 {
        law_processing_ends(task, known_worker, outcomes, now);
    } else {
        reveal_with_fuel(flow_after, 3);
    }
}

/// A task that was executed with success ends as completed if it has no
/// schedule, and is scheduled for its next run if it has one.
pub proof fn law_successful_task(task: Task, now: i64)
    ensures
        task.schedule is None ==> flow_after(task, true, seq![true, true], now)
            == TaskFlowView::MarkCompleted,
        task.schedule is Some && next_run(task, now) is Ok ==> flow_after(
            task,
            true,
            seq![true, true],
            now,
        ) == TaskFlowView::Schedule(next_run(task, now)->Ok_0),
        task.schedule is Some && next_run(task, now) is Err ==> flow_after(
            task,
            true,
            seq![true, true],
            now,
        ) == TaskFlowView::Finished(Err(TaskErrorView::NextRun)),
        task.schedule is None || next_run(task, now) is Ok ==> flow_after(
            task,
            true,
            seq![true, true, true],
            now,
        ) == TaskFlowView::Finished(Ok(())),
{
    assert(seq![true, true, true].drop_last() =~= seq![true, true]);
    assert(seq![true, true].drop_last() =~= seq![true]);
    assert(seq![true].drop_last() =~= Seq::<bool>::empty());
    reveal_with_fuel(flow_after, 4);
}

/// A task whose execution failed is marked as failed, with or without a
/// schedule, and that is no failure of the processing.
pub proof fn law_failed_task(task: Task, now: i64)
    ensures
        flow_after(task, true, seq![true, false], now) == TaskFlowView::MarkFailed,
        flow_after(task, true, seq![true, false, true], now) == TaskFlowView::Finished(Ok(())),
{
    assert(seq![true, false, true].drop_last() =~= seq![true, false]);
    assert(seq![true, false].drop_last() =~= seq![true]);
    assert(seq![true].drop_last() =~= Seq::<bool>::empty());
    reveal_with_fuel(flow_after, 4);
}

} // verus!
