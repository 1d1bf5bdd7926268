//! The loop that looks at the calendar.

use crate::entity::project::ProjectRow;
use crate::error::ServiceError;
use crate::jobs::exchange::processor::{
    event_outcomes, outcome_views, projects_by_code, EventOutcome, EventProcessor,
};
use crate::jobs::exchange::{ExchangeEvent, ExchangeResponse};
use vstd::prelude::*;

verus! {

/// What happens to the loop.
#[derive(Debug)]
pub enum CalendarEvent {
    /// The pause is over.
    Elapsed,
    /// The server has answered.
    Fetched(ExchangeResponse),
    /// The projects have been loaded; with the events that wait for them.
    Loaded(Vec<ExchangeEvent>, Vec<ProjectRow>),
    /// The tasks have been stored, as far as they could be.
    Stored,
    /// Old tasks have been deleted.
    CleanedUp,
    /// The events could not be fetched, the projects not be loaded, or old tasks
    /// not be deleted.
    Failed(ServiceError),
    /// The bot shuts down.
    Cancelled,
}

/// What the loop does next.
#[derive(Debug)]
pub enum CalendarStep {
    /// Wait for the next look.
    Wait,
    /// Ask the server for the events of the day.
    Fetch,
    /// Load the projects for these events.
    LoadProjects(Vec<ExchangeEvent>),
    /// Store the tasks among these outcomes, in their order.
    Store(Vec<EventOutcome>),
    /// Delete old tasks.
    CleanUp,
    /// End the loop.
    Stop,
}

/// Decides what the loop does after an event. A look goes from the events over
/// the projects to the tasks, and ends with the deletion of old tasks; a failure
/// ends the look, and only the shutdown ends the loop.
pub fn calendar_step(processor: &EventProcessor, event: CalendarEvent) -> (step: CalendarStep)
    ensures
        match event {
            CalendarEvent::Elapsed => step == CalendarStep::Fetch,
            CalendarEvent::Fetched(response) => step == CalendarStep::LoadProjects(response.value),
            CalendarEvent::Loaded(events, projects) => step matches CalendarStep::Store(outcomes)
                && outcome_views(outcomes@) == event_outcomes(
                events@,
                projects_by_code(projects@),
            ),
            CalendarEvent::Stored => step == CalendarStep::CleanUp,
            CalendarEvent::CleanedUp | CalendarEvent::Failed(_) => step == CalendarStep::Wait,
            CalendarEvent::Cancelled => step == CalendarStep::Stop,
        },
{
    match event {
        CalendarEvent::Elapsed => CalendarStep::Fetch,
        CalendarEvent::Fetched(response) => CalendarStep::LoadProjects(response.value),
        CalendarEvent::Loaded(events, projects) =>
            CalendarStep::Store(processor.process_events(events, projects)),
        CalendarEvent::Stored => CalendarStep::CleanUp,
        CalendarEvent::CleanedUp => CalendarStep::Wait,
        CalendarEvent::Failed(_) => CalendarStep::Wait,
        CalendarEvent::Cancelled => CalendarStep::Stop,
    }
}

} // verus!
