//! Laws of the calendar: from the events of a day to the tasks of the bot.

use crate::entity::project::ProjectRow;
use crate::entity::time::UtcTime;
use crate::error::{ServiceError, ServiceErrorView, ServiceResult};
use crate::jobs::exchange::calendar::{calendar_step, CalendarEvent, CalendarStep};
use crate::jobs::exchange::client::{
    response_content, response_text, take_response, utf8_lossy, ExchangeClient, ResponseCollector,
    Setting, SettingView,
};
use crate::jobs::exchange::processor::{
    event_outcomes, index_projects, law_events_are_independent,
    law_text_around_the_marks_is_ignored, marked_block, marked_between, options_value,
    outcome_views, projects_by_code, regex_fault, CreateTaskParams, EventOutcome, EventProcessor,
};
use crate::jobs::exchange::time::{
    local_time_of, parse_event_time, parse_modification_time, read_time, resolved_time,
    rfc3339_time, timezone_known, utc_text, zoned_time,
};
use crate::jobs::exchange::{
    Credentials, EventDate, ExchangeEvent, ExchangeResponse, EVENT_SHEBANG,
};
use crate::jobs::options::{option_texts, parse_options};
use crate::json::{json_view, JsonView};
use crate::laws::text::law_occurrence;
use crate::name_map::NameMap;
use crate::text::{contains_text, occurs_at, trim};
use serde_json::Value;
use vstd::prelude::*;
use vstd::utf8::{decode_utf8, valid_utf8};

verus! {

/// The low 32 bits of a number are the number itself where it fits, and differ
/// from it by a multiple of two to the power of 32 in any case.
pub proof fn lemma_low_bits(number: i64)
    ensures
        i32::MIN <= number <= i32::MAX ==> (number as i32) == number,
        (number - (number as i32)) % 0x1_0000_0000 == 0,
{
    assert((number - (number as i32)) % 0x1_0000_0000 == 0) by (bit_vector);
}

// ---------------------------------------------------------------------------
// Points in time
// ---------------------------------------------------------------------------

/// An event starts at the only point in time at which the clocks of its time zone
/// show its date and time, to the nanosecond. There is no start where the time
/// zone is unknown, where the date and time cannot be read, or where the clocks
/// skip them or show them twice.
pub proof fn law_event_starts_by_the_clocks_of_its_zone(
    start: &EventDate,
    time: ServiceResult<UtcTime>,
)
    requires
        call_ensures(parse_event_time, (start,), time),
    ensures
        !timezone_known(start.timezone@) ==> (time matches Err(error) && error@
            == ServiceErrorView::ParseError(
            "Invalid timezone: "@ + "failed to parse timezone"@,
        )),
        timezone_known(start.timezone@) ==> match local_time_of(
            start.date_time@,
            "%Y-%m-%dT%H:%M:%S%.f"@,
        ) {
            Err(reason) => time matches Err(error) && error@ == ServiceErrorView::ParseError(
                "Invalid datetime format: "@ + reason,
            ),
            Ok(local) => match zoned_time(start.timezone@, local) {
                Some((seconds, nanos)) => time matches Ok(time) && time.seconds == seconds
                    && time.nanos == nanos,
                None => time matches Err(error) && error@ == ServiceErrorView::ParseError(
                    "Invalid timestamp"@,
                ),
            },
        },
{
}

/// An event was changed at the point in time that its text tells.
pub proof fn law_modification_time(text: &str, time: ServiceResult<UtcTime>)
    requires
        call_ensures(parse_modification_time, (text,), time),
    ensures
        match rfc3339_time(text@) {
            Ok((seconds, nanos)) => time matches Ok(time) && time.seconds == seconds && time.nanos
                == nanos,
            Err(reason) => time matches Err(error) && error@ == ServiceErrorView::ParseError(
                "Invalid datetime format: "@ + reason,
            ),
        },
{
}

/// A date and time that was read is kept, and the reason why it could not be read
/// is told.
pub proof fn law_read_times_are_kept(
    parsed: Result<(i64, u32), String>,
    read: ServiceResult<UtcTime>,
    found: Option<(i64, u32)>,
    resolved: ServiceResult<UtcTime>,
)
    requires
        call_ensures(read_time, (parsed,), read),
        call_ensures(resolved_time, (found,), resolved),
    ensures
        match parsed {
            Ok((seconds, nanos)) => read matches Ok(time) && time.seconds == seconds && time.nanos
                == nanos,
            Err(reason) => read matches Err(error) && error@ == ServiceErrorView::ParseError(
                "Invalid datetime format: "@ + reason@,
            ),
        },
        match found {
            Some((seconds, nanos)) => resolved matches Ok(time) && time.seconds == seconds
                && time.nanos == nanos,
            None => resolved matches Err(error) && error@ == ServiceErrorView::ParseError(
                "Invalid timestamp"@,
            ),
        },
{
}

// ---------------------------------------------------------------------------
// Options and projects of an event
// ---------------------------------------------------------------------------

/// The options of an event are those of the text between its first mark and its
/// last one, without the white space around it.
pub proof fn law_options_stand_between_the_marks(
    processor: &EventProcessor,
    event: &ExchangeEvent,
    before: Seq<char>,
    block: &str,
    after: Seq<char>,
    inner: &str,
    expected: ServiceResult<NameMap<String>>,
    options: ServiceResult<NameMap<String>>,
)
    requires
        event.body.content@ == before + "[PLATFORM_BOT]"@ + block@ + "[PLATFORM_BOT]"@ + after,
        forall|at: int| #[trigger]
            occurs_at(event.body.content@, "[PLATFORM_BOT]"@, at) ==> before.len() <= at
                <= before.len() + "[PLATFORM_BOT]"@.len() + block@.len(),
        call_ensures(trim, (block,), inner),
        call_ensures(parse_options, (inner,), expected),
        call_ensures(EventProcessor::parse_event_options, (processor, event), options),
    ensures
        options is Ok && expected is Ok,
        forall|key: Seq<char>| #[trigger]
            options->Ok_0@.contains_key(key) <==> expected->Ok_0@.contains_key(key),
        forall|key: Seq<char>|
            expected->Ok_0@.contains_key(key) ==> (#[trigger] options->Ok_0@[key])@
                == expected->Ok_0@[key]@,
{
    assert(EVENT_SHEBANG@ == "[PLATFORM_BOT]"@);
    law_text_around_the_marks_is_ignored(before, block@, after);
    let a = option_texts(options->Ok_0@);
    let b = option_texts(expected->Ok_0@);
    assert(a == b);
    assert forall|key: Seq<char>| #[trigger]
        options->Ok_0@.contains_key(key) <==> expected->Ok_0@.contains_key(key) by {
        assert(a.contains_key(key) == b.contains_key(key));
    }
    assert forall|key: Seq<char>|
        expected->Ok_0@.contains_key(key) implies (#[trigger] options->Ok_0@[key])@
        == expected->Ok_0@[key]@ by {
        assert(b.contains_key(key) && a[key] == b[key]);
    }
}

/// An event whose text does not hold the mark twice, one after the other, has no
/// options.
pub proof fn law_event_without_two_marks_has_no_options(
    processor: &EventProcessor,
    event: &ExchangeEvent,
    options: ServiceResult<NameMap<String>>,
)
    requires
        forall|before: Seq<char>, block: Seq<char>, after: Seq<char>|
            event.body.content@ != #[trigger] (before + "[PLATFORM_BOT]"@ + block
                + "[PLATFORM_BOT]"@ + after),
        call_ensures(EventProcessor::parse_event_options, (processor, event), options),
    ensures
        options matches Err(error) && error@ == ServiceErrorView::InvalidEventFormat(
            "No bot options found in event"@,
        ),
{
    let text = event.body.content@;
    let mark = "[PLATFORM_BOT]"@;
    assert(EVENT_SHEBANG@ == mark);
    if marked_block(text) is Some {
        let (first, last) = choose|first: int, last: int| marked_between(text, first, last);
        let before = text.take(first);
        let block = text.subrange(first + mark.len(), last);
        let after = text.skip(last + mark.len());
        assert(text =~= before + mark + block + mark + after);
    }
}

/// A processor is there unless the regular expression for the marks is refused,
/// and then the reason is told.
pub proof fn law_processor(processor: ServiceResult<EventProcessor>)
    requires
        call_ensures(EventProcessor::new, (), processor),
    ensures
        match regex_fault("(?:\\[PLATFORM_BOT\\])([\\s\\S]*)(?:\\[PLATFORM_BOT\\])"@) {
            None => processor is Ok,
            Some(fault) => processor matches Err(error) && error@ == ServiceErrorView::ParseError(
                "Failed to parse bot options regexp: "@ + fault,
            ),
        },
{
}

/// The project of an event is the one whose code its options name.
pub proof fn law_project_is_found_by_its_code(
    processor: &EventProcessor,
    options: &NameMap<String>,
    projects: &NameMap<ProjectRow>,
    project: ServiceResult<&ProjectRow>,
)
    requires
        call_ensures(
            EventProcessor::get_project_from_options,
            (processor, options, projects),
            project,
        ),
    ensures
        !options@.contains_key("project"@) ==> (project matches Err(error) && error@
            == ServiceErrorView::InvalidEventFormat("No project code in options"@)),
        options@.contains_key("project"@) && !projects@.contains_key(options@["project"@]@) ==> (
        project matches Err(error) && error@ == ServiceErrorView::ResourceNotFound(
            "Project "@ + options@["project"@]@,
        )),
        options@.contains_key("project"@) && projects@.contains_key(options@["project"@]@) ==> (
        project matches Ok(project) && *project == projects@[options@["project"@]@]),
{
    let texts = option_texts(options@);
    assert(texts.contains_key("project"@) == options@.contains_key("project"@));
    if options@.contains_key("project"@) {
        assert(texts["project"@] == options@["project"@]@);
    }
}

/// The index of projects holds, under the code of each, the last one of that code.
proof fn lemma_last_project(projects: Seq<ProjectRow>, code: Seq<char>)
    ensures
        projects_by_code(projects).contains_key(code) <==> exists|i: int|
            0 <= i < projects.len() && (#[trigger] projects[i]).code@ == code,
        forall|i: int|
            0 <= i < projects.len() && (#[trigger] projects[i]).code@ == code && (forall|j: int|
                i < j < projects.len() ==> (#[trigger] projects[j]).code@ != code)
                ==> projects_by_code(projects)[code] == projects[i],
    decreases projects.len(),
{
    if projects.len() > 0 {
        let front = projects.drop_last();
        lemma_last_project(front, code);
        let last = projects.len() - 1;
        assert forall|i: int| 0 <= i < front.len() implies #[trigger] front[i] == projects[i] by {
        }
        if projects[last].code@ != code {
            if exists|i: int| 0 <= i < projects.len() && (#[trigger] projects[i]).code@ == code {
                let i = choose|i: int|
                    0 <= i < projects.len() && (#[trigger] projects[i]).code@ == code;
                assert(front[i].code@ == code);
            }
            if exists|i: int| 0 <= i < front.len() && (#[trigger] front[i]).code@ == code {
                let i = choose|i: int| 0 <= i < front.len() && (#[trigger] front[i]).code@ == code;
                assert(projects[i].code@ == code);
            }
        }
        assert forall|i: int|
            0 <= i < projects.len() && (#[trigger] projects[i]).code@ == code && (forall|j: int|
                i < j < projects.len() ==> (#[trigger] projects[j]).code@
                    != code) implies projects_by_code(projects)[code] == projects[i] by {
            if i < last {
                assert(projects[last].code@ != code);
                assert(front[i].code@ == code);
                assert forall|j: int| i < j < front.len() implies (#[trigger] front[j]).code@
                    != code by {
                    assert(projects[j].code@ != code);
                }
            }
        }
    }
}

/// The last project of a code is found under it, and nothing under other codes.
pub proof fn law_last_project_of_a_code_counts(
    projects: Vec<ProjectRow>,
    index: NameMap<ProjectRow>,
    code: Seq<char>,
)
    requires
        call_ensures(index_projects, (projects,), index),
    ensures
        index@.contains_key(code) <==> exists|i: int|
            0 <= i < projects@.len() && (#[trigger] projects@[i]).code@ == code,
        forall|i: int|
            0 <= i < projects@.len() && (#[trigger] projects@[i]).code@ == code && (forall|j: int|
                i < j < projects@.len() ==> (#[trigger] projects@[j]).code@ != code)
                ==> index@[code] == projects@[i],
{
    lemma_last_project(projects@, code);
}

/// Options become a JSON object with a text for each option and nothing else.
pub proof fn law_options_become_an_object(options: NameMap<String>, value: Value)
    requires
        call_ensures(options_value, (options,), value),
    ensures
        json_view(value) is Object,
        forall|key: Seq<char>| #[trigger]
            json_view(value)->Object_0.contains_key(key) <==> options@.contains_key(key),
        forall|key: Seq<char>|
            options@.contains_key(key) ==> #[trigger] json_view(value)->Object_0[key]
                == JsonView::Text(options@[key]@),
{
    let texts = option_texts(options@);
    let members = json_view(value)->Object_0;
    assert forall|key: Seq<char>| #[trigger]
        members.contains_key(key) <==> options@.contains_key(key) by {
        assert(texts.contains_key(key) == options@.contains_key(key));
    }
    assert forall|key: Seq<char>| options@.contains_key(key) implies #[trigger] members[key]
        == JsonView::Text(options@[key]@) by {
        assert(texts.contains_key(key));
    }
}

// ---------------------------------------------------------------------------
// Tasks from events
// ---------------------------------------------------------------------------

/// An event becomes a task only where its options, its project, its start and its
/// last change can all be told; else the first of these faults is the error.
pub proof fn law_first_fault_of_an_event(
    processor: &EventProcessor,
    event: &ExchangeEvent,
    projects: &NameMap<ProjectRow>,
    options: ServiceResult<NameMap<String>>,
    project: ServiceResult<&ProjectRow>,
    start: ServiceResult<UtcTime>,
    modified: ServiceResult<UtcTime>,
    params: ServiceResult<CreateTaskParams>,
)
    requires
        call_ensures(EventProcessor::parse_event_options, (processor, event), options),
        options matches Ok(options) ==> call_ensures(
            EventProcessor::get_project_from_options,
            (processor, &options, projects),
            project,
        ),
        call_ensures(parse_event_time, (&event.start,), start),
        exists|text: &str|
            text@ == event.last_modified@ && #[trigger] call_ensures(
                parse_modification_time,
                (text,),
                modified,
            ),
        call_ensures(EventProcessor::process_single_event, (processor, event, projects), params),
    ensures
        match (options, project, start, modified) {
            (Err(fault), _, _, _) => params matches Err(error) && error@ == fault@,
            (Ok(_), Err(fault), _, _) => params matches Err(error) && error@ == fault@,
            (Ok(_), Ok(_), Err(fault), _) => params matches Err(error) && error@ == fault@,
            (Ok(_), Ok(_), Ok(_), Err(fault)) => params matches Err(error) && error@ == fault@,
            (Ok(options), Ok(project), Ok(start), Ok(modified)) => params matches Ok(params)
                && params.project_id == project.id && params.external_modified_at == Some(modified)
                && (i32::MIN <= start.seconds <= i32::MAX ==> params.start_at == start.seconds) && (
            start.seconds - params.start_at) % 0x1_0000_0000 == 0,
        },
{
    if start is Ok {
        lemma_low_bits((start->Ok_0).seconds);
    }
}

/// A task that comes from an event has the event's subject for its name and the
/// event's identifier, sends a notification, has no schedule, and holds the
/// options of the event as texts.
pub proof fn law_task_carries_its_event(
    processor: &EventProcessor,
    event: &ExchangeEvent,
    projects: &NameMap<ProjectRow>,
    options: ServiceResult<NameMap<String>>,
    params: ServiceResult<CreateTaskParams>,
)
    requires
        call_ensures(EventProcessor::parse_event_options, (processor, event), options),
        call_ensures(EventProcessor::process_single_event, (processor, event, projects), params),
        params is Ok,
    ensures
        (params->Ok_0).name@ == event.subject@,
        (params->Ok_0).task_type@ == "notify"@,
        (params->Ok_0).schedule is None,
        (params->Ok_0).external_id matches Some(id) && id@ == event.id@,
        options is Ok,
        json_view((params->Ok_0).options) is Object,
        forall|key: Seq<char>| #[trigger]
            json_view((params->Ok_0).options)->Object_0.contains_key(key)
                <==> options->Ok_0@.contains_key(key),
        forall|key: Seq<char>|
            options->Ok_0@.contains_key(key) ==> #[trigger] json_view(
                (params->Ok_0).options,
            )->Object_0[key] == JsonView::Text(options->Ok_0@[key]@),
{
    let texts = option_texts(options->Ok_0@);
    let members = json_view((params->Ok_0).options)->Object_0;
    assert forall|key: Seq<char>| #[trigger]
        members.contains_key(key) <==> options->Ok_0@.contains_key(key) by {
        assert(texts.contains_key(key) == options->Ok_0@.contains_key(key));
    }
    assert forall|key: Seq<char>|
        options->Ok_0@.contains_key(key) implies #[trigger] members[key] == JsonView::Text(
        options->Ok_0@[key]@,
    ) by {
        assert(texts.contains_key(key));
    }
}

/// A task starts at the second at which the clocks of the event's time zone show
/// the event's date and time, as long as that is a 32-bit number.
pub proof fn law_task_starts_with_its_event(
    processor: &EventProcessor,
    event: &ExchangeEvent,
    projects: &NameMap<ProjectRow>,
    params: ServiceResult<CreateTaskParams>,
)
    requires
        call_ensures(EventProcessor::process_single_event, (processor, event, projects), params),
        params is Ok,
    ensures
        local_time_of(event.start.date_time@, "%Y-%m-%dT%H:%M:%S%.f"@) matches Ok(local)
            && zoned_time(event.start.timezone@, local) matches Some((seconds, nanos)) && (i32::MIN
            <= seconds <= i32::MAX ==> (params->Ok_0).start_at == seconds),
{
}

/// Tasks start as far apart as their events do.
pub proof fn law_tasks_start_as_far_apart_as_their_events(
    processor: &EventProcessor,
    first: &ExchangeEvent,
    second: &ExchangeEvent,
    projects: &NameMap<ProjectRow>,
    first_start: ServiceResult<UtcTime>,
    second_start: ServiceResult<UtcTime>,
    first_params: ServiceResult<CreateTaskParams>,
    second_params: ServiceResult<CreateTaskParams>,
)
    requires
        call_ensures(parse_event_time, (&first.start,), first_start),
        call_ensures(parse_event_time, (&second.start,), second_start),
        call_ensures(
            EventProcessor::process_single_event,
            (processor, first, projects),
            first_params,
        ),
        call_ensures(
            EventProcessor::process_single_event,
            (processor, second, projects),
            second_params,
        ),
        first_params is Ok && second_params is Ok,
        first_start matches Ok(start) && i32::MIN <= start.seconds <= i32::MAX,
        second_start matches Ok(start) && i32::MIN <= start.seconds <= i32::MAX,
    ensures
        (second_params->Ok_0).start_at - (first_params->Ok_0).start_at == (
        second_start->Ok_0).seconds - (first_start->Ok_0).seconds,
{
}

/// No events have no outcomes.
pub proof fn law_no_events_no_outcomes(
    processor: &EventProcessor,
    events: Vec<ExchangeEvent>,
    projects: Vec<ProjectRow>,
    outcomes: Vec<EventOutcome>,
)
    requires
        events@.len() == 0,
        call_ensures(EventProcessor::process_events, (processor, events, projects), outcomes),
    ensures
        outcomes@.len() == 0,
{
    assert(outcome_views(outcomes@).len() == 0);
}

/// One event has an outcome exactly if its text holds the mark, and that is what
/// becomes of the event by itself.
pub proof fn law_outcome_of_one_event(
    processor: &EventProcessor,
    events: Vec<ExchangeEvent>,
    projects: Vec<ProjectRow>,
    index: NameMap<ProjectRow>,
    params: ServiceResult<CreateTaskParams>,
    outcomes: Vec<EventOutcome>,
)
    requires
        events@.len() == 1,
        call_ensures(index_projects, (projects,), index),
        call_ensures(
            EventProcessor::process_single_event,
            (processor, &events@[0], &index),
            params,
        ),
        call_ensures(EventProcessor::process_events, (processor, events, projects), outcomes),
    ensures
        if exists|before: Seq<char>, after: Seq<char>|
            events@[0].body.content@ == #[trigger] (before + "[PLATFORM_BOT]"@ + after) {
            &&& outcomes@.len() == 1
            &&& outcomes@[0].subject@ == events@[0].subject@
            &&& match (params, outcomes@[0].params) {
                (Ok(params), Ok(outcome)) => outcome@ == params@,
                (Err(error), Err(outcome)) => outcome@ == error@,
                _ => false,
            }
        } else {
            outcomes@.len() == 0
        },
{
    let event = events@[0];
    let by_code = projects_by_code(projects@);
    assert(events@.drop_last() =~= Seq::empty());
    assert(event_outcomes(events@.drop_last(), by_code) =~= Seq::empty());
    lemma_contains(event.body.content@, "[PLATFORM_BOT]"@);
    assert(outcome_views(outcomes@).len() == outcomes@.len());
    if outcomes@.len() > 0 {
        assert(outcome_views(outcomes@)[0] == outcomes@[0]@);
    }
}

/// A text contains a pattern if it can be cut around it.
proof fn lemma_contains(text: Seq<char>, pattern: Seq<char>)
    ensures
        contains_text(text, pattern) <==> exists|before: Seq<char>, after: Seq<char>|
            text == #[trigger] (before + pattern + after),
{
    if contains_text(text, pattern) {
        let at = choose|at: int| occurs_at(text, pattern, at);
        law_occurrence(text, pattern, at);
    }
    if exists|before: Seq<char>, after: Seq<char>| text == #[trigger] (before + pattern + after) {
        let (before, after) = choose|before: Seq<char>, after: Seq<char>|
            text == #[trigger] (before + pattern + after);
        law_occurrence(text, pattern, before.len() as int);
        assert(occurs_at(text, pattern, before.len() as int));
    }
}

/// The outcomes of events and then others are those of the former and then those
/// of the latter.
pub proof fn law_outcomes_keep_the_order_of_events(
    processor: &EventProcessor,
    first: Vec<ExchangeEvent>,
    second: Vec<ExchangeEvent>,
    events: Vec<ExchangeEvent>,
    projects: Vec<ProjectRow>,
    first_outcomes: Vec<EventOutcome>,
    second_outcomes: Vec<EventOutcome>,
    outcomes: Vec<EventOutcome>,
)
    requires
        events@ == first@ + second@,
        call_ensures(EventProcessor::process_events, (processor, first, projects), first_outcomes),
        call_ensures(
            EventProcessor::process_events,
            (processor, second, projects),
            second_outcomes,
        ),
        call_ensures(EventProcessor::process_events, (processor, events, projects), outcomes),
    ensures
        outcomes@.len() == first_outcomes@.len() + second_outcomes@.len(),
        forall|i: int|
            0 <= i < first_outcomes@.len() ==> (#[trigger] outcomes@[i])@ == first_outcomes@[i]@,
        forall|i: int|
            first_outcomes@.len() <= i < outcomes@.len() ==> (#[trigger] outcomes@[i])@
                == second_outcomes@[i - first_outcomes@.len()]@,
{
    law_events_are_independent(first@, second@, projects_by_code(projects@));
    let a = outcome_views(first_outcomes@);
    let b = outcome_views(second_outcomes@);
    let c = outcome_views(outcomes@);
    assert(c == a + b);
    assert(c.len() == outcomes@.len() && a.len() == first_outcomes@.len() && b.len()
        == second_outcomes@.len());
    assert forall|i: int| 0 <= i < first_outcomes@.len() implies (#[trigger] outcomes@[i])@
        == first_outcomes@[i]@ by {
        assert(c[i] == a[i]);
    }
    assert forall|i: int| first_outcomes@.len() <= i < outcomes@.len() implies (
    #[trigger] outcomes@[i])@ == second_outcomes@[i - first_outcomes@.len()]@ by {
        assert(c[i] == b[i - a.len()]);
    }
}

/// The loop over the calendar waits, asks for events, loads the projects for them,
/// stores what became of them, deletes old tasks and waits again. A failure makes
/// it wait, and only the shutdown ends it.
pub proof fn law_calendar_loop(
    processor: &EventProcessor,
    event: CalendarEvent,
    step: CalendarStep,
    outcomes: Vec<EventOutcome>,
)
    requires
        call_ensures(calendar_step, (processor, event), step),
        event matches CalendarEvent::Loaded(events, projects) ==> call_ensures(
            EventProcessor::process_events,
            (processor, events, projects),
            outcomes,
        ),
    ensures
        event is Elapsed ==> step is Fetch,
        event matches CalendarEvent::Fetched(response) ==> step == CalendarStep::LoadProjects(
            response.value,
        ),
        event is Loaded ==> {
            &&& step is Store
            &&& step->Store_0@.len() == outcomes@.len()
            &&& forall|i: int|
                0 <= i < outcomes@.len() ==> (#[trigger] step->Store_0@[i])@ == outcomes@[i]@
        },
        event is Stored ==> step is CleanUp,
        event is CleanedUp || event is Failed ==> step is Wait,
        step is Stop <==> event is Cancelled,
{
    if event is Loaded {
        let a = outcome_views(step->Store_0@);
        let b = outcome_views(outcomes@);
        assert(a.len() == step->Store_0@.len() && b.len() == outcomes@.len());
        assert forall|i: int| 0 <= i < outcomes@.len() implies (#[trigger] step->Store_0@[i])@
            == outcomes@[i]@ by {
            assert(a[i] == b[i]);
        }
    }
}

// ---------------------------------------------------------------------------
// Requests
// ---------------------------------------------------------------------------

/// The three variables are all needed, and the first that is not set is named.
pub proof fn law_credentials(
    server: Option<String>,
    username: Option<String>,
    password: Option<String>,
    credentials: ServiceResult<Credentials>,
)
    requires
        call_ensures(Credentials::from_variables, (server, username, password), credentials),
    ensures
        credentials is Ok <==> server is Some && username is Some && password is Some,
        credentials matches Ok(given) ==> given.server == server->0 && given.username
            == username->0 && given.password == password->0,
        credentials matches Err(error) ==> error@ == ServiceErrorView::EnvVarError(
            if server is None {
                "EXCHANGE_URL"@
            } else if username is None {
                "EXCHANGE_LOGIN"@
            } else {
                "EXCHANGE_PASSWORD"@
            },
        ),
{
}

/// A request for events names the server, the first second and the last one.
pub proof fn law_request_names_its_time(
    server: String,
    username: String,
    password: String,
    client: ExchangeClient,
    start: UtcTime,
    end: UtcTime,
    url: String,
    from: &str,
    to: &str,
    plain: String,
)
    requires
        call_ensures(ExchangeClient::new, (server, username, password), client),
        call_ensures(ExchangeClient::request_url, (&client, start, end), url),
        call_ensures(ExchangeClient::events_url, (&client, from, to), plain),
    ensures
        url@ == server@ + "/api/v2.0/me/calendarview?startDateTime="@ + utc_text(
            start.seconds,
            "%Y-%m-%dT%H:%M:%S"@,
        ) + "&endDateTime="@ + utc_text(end.seconds, "%Y-%m-%dT%H:%M:%S"@)
            + "&$select=Subject,Start,Location,Body,LastModifiedDateTime"@,
        from@ == utc_text(start.seconds, "%Y-%m-%dT%H:%M:%S"@) && to@ == utc_text(
            end.seconds,
            "%Y-%m-%dT%H:%M:%S"@,
        ) ==> plain@ == url@,
        plain@ == server@ + "/api/v2.0/me/calendarview?startDateTime="@ + from@ + "&endDateTime="@
            + to@ + "&$select=Subject,Start,Location,Body,LastModifiedDateTime"@,
{
}

/// The settings hold the user's name and password as they are given, and the
/// headers are sent last.
pub proof fn law_settings_of_a_user(
    server: String,
    username: String,
    password: String,
    client: ExchangeClient,
)
    requires
        call_ensures(ExchangeClient::new, (server, username, password), client),
    ensures
        client.settings@.len() == 9,
        client.settings@[0]@ == SettingView::Header("Prefer: outlook.body-content-type=\"text\""@),
        client.settings@[1]@ == SettingView::Header("Prefer: outlook.timezone=\"Europe/Moscow\""@),
        client.settings@[2]@ == SettingView::Authentication(true, false),
        client.settings@[3] matches Setting::Username(name) && name@ == username@,
        client.settings@[4] matches Setting::Password(word) && word@ == password@,
        client.settings@[5] == Setting::ConnectTimeout(1024),
        client.settings@[6] == Setting::Timeout(15),
        client.settings@[7]@ == SettingView::UserAgent("Platform-Bot"@),
        client.settings@[8] is Headers,
{
    let settings = client.settings@;
    let views = settings.map_values(|setting: Setting| setting@);
    assert(views.len() == settings.len());
    assert forall|i: int| 0 <= i < settings.len() implies #[trigger] views[i] == settings[i]@ by {
    }
    assert(views[0] == settings[0]@ && views[1] == settings[1]@ && views[2] == settings[2]@
        && views[3] == settings[3]@ && views[4] == settings[4]@ && views[5] == settings[5]@
        && views[6] == settings[6]@ && views[7] == settings[7]@ && views[8] == settings[8]@);
}

/// A setting that cannot be made, an address that cannot be set, a request that
/// cannot be made and an answer without a status are told with the whole reason.
pub proof fn law_request_faults(
    setting: &Setting,
    reason: &str,
    unset: ServiceError,
    address: ServiceError,
    request: ServiceError,
    status: ServiceError,
)
    requires
        call_ensures(Setting::failure, (setting, reason), unset),
        call_ensures(ExchangeClient::url_failure, (reason,), address),
        call_ensures(ExchangeClient::request_failure, (reason,), request),
        call_ensures(ExchangeClient::status_failure, (reason,), status),
    ensures
        unset@ == ServiceErrorView::ExchangeRequestConfigError(
            match *setting {
                Setting::Header(_) => "Failed to create request headers: "@,
                Setting::Authentication { .. } => "Failed to set http auth: "@,
                Setting::Username(_) => "Failed to set username: "@,
                Setting::Password(_) => "Failed to set password: "@,
                Setting::ConnectTimeout(_) => "Failed to set connection timeout: "@,
                Setting::Timeout(_) => "Failed to set request timeout: "@,
                Setting::UserAgent(_) => "Failed to set user agent: "@,
                Setting::Headers => "Failed to set headers: "@,
            } + reason@,
        ),
        address@ == ServiceErrorView::ExchangeRequestConfigError(
            "Failed to set request url: "@ + reason@,
        ),
        request@ == ServiceErrorView::InternalError(reason@),
        status@ == ServiceErrorView::ExchangeConnectionError(reason@),
{
}

/// Only the status 200 is a success; the text of an answer is told whole in any
/// case, and is the one that its bytes encode.
pub proof fn law_answer_is_told_whole(
    status: u32,
    collector: &ResponseCollector,
    text: ServiceResult<String>,
    content: String,
    judged: ServiceResult<String>,
)
    requires
        call_ensures(response_text, (status, collector), text),
        call_ensures(response_content, (status, content), judged),
    ensures
        ({
            let whole = if valid_utf8(collector.0@) {
                decode_utf8(collector.0@)
            } else {
                utf8_lossy(collector.0@)
            };
            if status == 200 {
                text matches Ok(text) && text@ == whole
            } else {
                text matches Err(error) && error@ == ServiceErrorView::ExchangeApiError(
                    status,
                    whole,
                )
            }
        }),
        if status == 200 {
            judged matches Ok(text) && text@ == content@
        } else {
            judged matches Err(error) && error@ == ServiceErrorView::ExchangeApiError(
                status,
                content@,
            )
        },
{
}

/// A new collector holds no bytes.
pub proof fn law_new_collector_is_empty(collector: ResponseCollector)
    requires
        call_ensures(ResponseCollector::new, (), collector),
    ensures
        collector.0@.len() == 0,
{
}

/// Bytes that come in are added behind those that came before, all of them.
pub proof fn law_bytes_are_collected(collector: &mut ResponseCollector, data: &[u8], taken: usize)
    requires
        call_ensures(ResponseCollector::write, (collector, data), taken),
    ensures
        final(collector).0@ == old(collector).0@ + data@,
        taken == data@.len(),
{
}

/// An answer that could be parsed is handed on as it is, and its bytes are
/// forgotten; for another the whole reason is told, and its bytes stay.
pub proof fn law_parsed_answer_is_handed_on(
    parsed: Result<ExchangeResponse, String>,
    collector: &mut ResponseCollector,
    response: ServiceResult<ExchangeResponse>,
)
    requires
        call_ensures(take_response, (parsed, collector), response),
    ensures
        parsed matches Ok(given) ==> (response matches Ok(taken) && taken == given)
            && final(collector).0@.len() == 0,
        parsed matches Err(reason) ==> (response matches Err(error) && error@
            == ServiceErrorView::ParseError("Failed to parse exchange response: "@ + reason@))
            && final(collector).0@ == old(collector).0@,
{
}

} // verus!
