//! The loop that looks for tasks to run.

use crate::entity::task::Task;
use vstd::prelude::*;

verus! {

/// The seconds between two looks for tasks.
pub const QUERY_TIMEOUT: u64 = 5;

/// How many tasks can wait for a worker.
pub const CHANNEL_CAPACITY: usize = 500;

/// What happens to the loop.
#[derive(Debug)]
pub enum PollEvent {
    /// The time between two looks has passed.
    Elapsed,
    /// The tasks to run have been loaded.
    Loaded(Vec<Task>),
    /// The tasks to run could not be loaded; with the reason.
    LoadFailed(String),
    /// The tasks have been handed on.
    Enqueued,
    /// The bot shuts down.
    Cancelled,
}

/// What the loop does next.
#[derive(Debug)]
pub enum PollStep {
    /// Wait for the next look.
    Wait,
    /// Load the tasks to run.
    Load,
    /// Hand the tasks on, in their order.
    Enqueue(Vec<Task>),
    /// End the loop.
    Stop,
}

/// Decides what the loop does after an event: a failure to load tasks is passed
/// over, and only the shutdown ends the loop.
pub fn poll_step(event: PollEvent) -> (step: PollStep)
    ensures
        match event {
            PollEvent::Elapsed => step == PollStep::Load,
            PollEvent::Loaded(tasks) => step == PollStep::Enqueue(tasks),
            PollEvent::LoadFailed(_) | PollEvent::Enqueued => step == PollStep::Wait,
            PollEvent::Cancelled => step == PollStep::Stop,
        },
{
    match event {
        PollEvent::Elapsed => PollStep::Load,
        PollEvent::Loaded(tasks) => PollStep::Enqueue(tasks),
        PollEvent::LoadFailed(_) => PollStep::Wait,
        PollEvent::Enqueued => PollStep::Wait,
        PollEvent::Cancelled => PollStep::Stop,
    }
}

} // verus!
