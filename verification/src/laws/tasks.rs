//! Laws of the life of a task.

use crate::entity::task::{Task, TaskStatus};
use crate::executor::flow::{TaskError, TaskErrorView, TaskFlow, TaskFlowView};
use crate::executor::poll::{poll_step, PollEvent, PollStep};
use crate::executor::schedule::{calculate_next_run_at, clock_tells, ScheduleError};
use vstd::prelude::*;

verus! {

/// The stored names of the statuses.
pub proof fn law_status_labels(status: &TaskStatus, label: &'static str)
    requires
        call_ensures(TaskStatus::label, (status,), label),
    ensures
        label@ == match *status {
            TaskStatus::New => "new"@,
            TaskStatus::InProgress => "in_progress"@,
            TaskStatus::Retried => "retried"@,
            TaskStatus::Failed => "failed"@,
            TaskStatus::Finished => "finished"@,
        },
{
}

/// A task is first marked as running. Once that has succeeded it is executed if
/// there is a worker for its type, and else the processing ends with the type in
/// the error.
pub proof fn law_task_is_marked_and_executed(
    task: &Task,
    known_worker: bool,
    succeeded: bool,
    now: i64,
    start: TaskFlow,
    flow: TaskFlow,
)
    requires
        call_ensures(TaskFlow::start, (), start),
        call_ensures(
            TaskFlow::advance_at,
            (TaskFlow::MarkRunning, task, known_worker, succeeded, now),
            flow,
        ),
    ensures
        start is MarkRunning,
        succeeded && known_worker ==> flow is Execute,
        succeeded && !known_worker ==> (flow matches TaskFlow::Finished(Err(
            TaskError::UnknownWorker(task_type),
        )) && task_type@ == task.task_type@),
        !succeeded ==> (flow matches TaskFlow::Finished(Err(error)) && error is MarkRunning),
{
    assert(flow@ == flow.view());
}

/// A task whose execution failed is marked as failed, whatever else holds of it.
/// One that was executed is marked as completed if it has no schedule; else its
/// next run is stored, and the processing ends with an error where that cannot be
/// told.
pub proof fn law_after_the_execution(
    task: &Task,
    known_worker: bool,
    succeeded: bool,
    now: i64,
    run: Result<i32, ScheduleError>,
    flow: TaskFlow,
)
    requires
        call_ensures(calculate_next_run_at, (task, now), run),
        call_ensures(
            TaskFlow::advance_at,
            (TaskFlow::Execute, task, known_worker, succeeded, now),
            flow,
        ),
    ensures
        !succeeded ==> flow is MarkFailed,
        succeeded && task.schedule is None ==> flow is MarkCompleted,
        succeeded && task.schedule is Some ==> match run {
            Ok(run) => flow == TaskFlow::Schedule(run),
            Err(_) => flow matches TaskFlow::Finished(Err(error)) && error is NextRun,
        },
{
    assert(flow@ == flow.view());
}

/// The last work on a task ends the processing: without an error if it succeeded,
/// and else with the error that names the work. What has ended does not change.
pub proof fn law_last_work_ends_the_processing(
    last: TaskFlow,
    task: &Task,
    known_worker: bool,
    succeeded: bool,
    now: i64,
    flow: TaskFlow,
)
    requires
        last is Schedule || last is MarkCompleted || last is MarkFailed || last is Finished,
        call_ensures(TaskFlow::advance_at, (last, task, known_worker, succeeded, now), flow),
    ensures
        !(last is Finished) && succeeded ==> flow matches TaskFlow::Finished(Ok(_)),
        !(last is Finished) && !succeeded ==> (flow matches TaskFlow::Finished(Err(error))
            && error@ == match last {
            TaskFlow::Schedule(_) => TaskErrorView::Schedule,
            TaskFlow::MarkCompleted => TaskErrorView::MarkCompleted,
            _ => TaskErrorView::MarkFailed,
        }),
        last is Finished ==> flow@ == last@,
{
    assert(flow@ == flow.view());
}

/// Where the time does not decide, the same follows by the clock of the machine as
/// at any time.
pub proof fn law_flow_by_the_clock(
    flow: TaskFlow,
    task: &Task,
    known_worker: bool,
    succeeded: bool,
    now: i64,
    next: TaskFlow,
    expected: TaskFlow,
)
    requires
        !(flow is Execute && succeeded && task.schedule is Some),
        call_ensures(TaskFlow::advance, (flow, task, known_worker, succeeded), next),
        call_ensures(TaskFlow::advance_at, (flow, task, known_worker, succeeded, now), expected),
    ensures
        next@ == expected@,
{
    assert(next@ == flow@.after(*task, known_worker, succeeded, now));
}

/// The errors of the processing in words.
pub proof fn law_task_messages(error: &TaskError, message: String)
    requires
        call_ensures(TaskError::message, (error,), message),
    ensures
        message@ == match *error {
            TaskError::MarkRunning => "Failed to set task status to in_progress"@,
            TaskError::UnknownWorker(task_type) => "Unknown worker type: "@ + task_type@,
            TaskError::NextRun => "Failed to calculate next run time"@,
            TaskError::Schedule => "Failed to schedule next task run"@,
            TaskError::MarkCompleted => "Failed to mark task as completed"@,
            TaskError::MarkFailed => "Failed to mark task as failed"@,
        },
{
}

/// The loop over the tasks waits, loads what is to run, hands all of it on in its
/// order and waits again. A failure makes it wait, and only the shutdown ends it.
pub proof fn law_poll_loop(event: PollEvent, step: PollStep)
    requires
        call_ensures(poll_step, (event,), step),
    ensures
        event is Elapsed ==> step is Load,
        event matches PollEvent::Loaded(tasks) ==> step == PollStep::Enqueue(tasks),
        event is LoadFailed || event is Enqueued ==> step is Wait,
        step is Stop <==> event is Cancelled,
{
}

/// By the clock of the machine, an executed task with a schedule is scheduled for
/// its next run at the time that the clock told.
pub proof fn law_schedule_by_the_clock(
    task: &Task,
    known_worker: bool,
    flow: TaskFlow,
)
    requires
        task.schedule is Some,
        call_ensures(TaskFlow::advance, (TaskFlow::Execute, task, known_worker, true), flow),
    ensures
        exists|now: i64| #[trigger]
            clock_tells(now) && forall|run: Result<i32, ScheduleError>| #[trigger]
                call_ensures(calculate_next_run_at, (task, now), run) ==> match run {
                    Ok(run) => flow == TaskFlow::Schedule(run),
                    Err(_) => flow matches TaskFlow::Finished(Err(error)) && error is NextRun,
                },
{
    assert(flow@ == flow.view());
    let now = choose|now: i64|
        clock_tells(now) && flow@ == #[trigger] TaskFlowView::Execute.after(
            *task,
            known_worker,
            true,
            now,
        );
    assert(TaskFlow::Execute.view() == TaskFlowView::Execute);
    assert(clock_tells(now));
}

} // verus!
