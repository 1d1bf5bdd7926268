//! Tasks from events.
//!
//! An event asks for a task by options between two marks in its text. They name
//! the project; the task notifies at the start of the event.

use crate::entity::project::ProjectRow;
use crate::entity::time::UtcTime;
use crate::error::{ServiceError, ServiceErrorView, ServiceResult};
use crate::jobs::exchange::time::{
    event_time, modification_time, parse_event_time, parse_modification_time,
};
use crate::jobs::exchange::{ExchangeEvent, EVENT_SHEBANG, EVENT_SHEBANG_REGEXP};
use crate::jobs::options::{lines, option_texts, options_in, parse_options};
use crate::json::{entry_members, json_object, json_text, json_view, JsonView};
use crate::name_map::{entry_map, NameMap};
use crate::text::{concat2, contains, contains_text, occurs_at, trim, trimmed};
use regex::Regex;
use serde_json::Value;
use uuid::Uuid;
use vstd::prelude::*;

verus! {

/// The type of the tasks that come from events.
pub const TASK_TYPE: &'static str = "notify";

/// The option that names the project.
pub const PROJECT_OPTION: &'static str = "project";

// ---------------------------------------------------------------------------
// The options in the text of an event
// ---------------------------------------------------------------------------

/// Declares the regular expression of `regex`.
#[verifier::external_type_specification]
#[verifier::external_body]
pub struct ExRegex(regex::Regex);

/// What `regex::Regex::as_str` says of a regular expression: the text that it
/// was made from.
pub uninterp spec fn regex_source(regex: regex::Regex) -> Seq<char>;

/// The text of the error with which `regex::Regex::new` refuses a text, where
/// it does.
pub uninterp spec fn regex_fault(source: Seq<char>) -> Option<Seq<char>>;

/// `regex::Regex::new`: whether a text is refused, and with what error, depends
/// on the text alone, and the regular expression keeps it.
#[verifier::external_body]
fn compile_regex(source: &str) -> (regex: Result<Regex, String>)
    ensures
        match regex {
            Ok(regex) => regex_fault(source@) is None && regex_source(regex) == source@,
            Err(error) => regex_fault(source@) == Some(error@),
        },
{
    Regex::new(source).map_err(|error| error.to_string())
}

/// The mark stands at `first` and at `last`, one after the other, and nowhere
/// before the one or after the other.
pub open spec fn marked_between(text: Seq<char>, first: int, last: int) -> bool {
    &&& occurs_at(text, EVENT_SHEBANG@, first)
    &&& occurs_at(text, EVENT_SHEBANG@, last)
    &&& first + EVENT_SHEBANG@.len() <= last
    &&& forall|at: int| #[trigger] occurs_at(text, EVENT_SHEBANG@, at) ==> first <= at <= last
}

/// The text between the first mark and the last one.
pub open spec fn marked_block(text: Seq<char>) -> Option<Seq<char>> {
    if exists|first: int, last: int| marked_between(text, first, last) {
        let (first, last) = choose|first: int, last: int| marked_between(text, first, last);
        Some(text.subrange(first + EVENT_SHEBANG@.len(), last))
    } else {
        None
    }
}

/// `regex::Regex::captures` and the first group of the match. The regular
/// expression is a mark, any text and a mark again; as a search takes the
/// leftmost match, and a repetition as much as it can, the group is the text
/// between the first mark and the last one.
#[verifier::external_body]
fn first_group<'a>(regex: &Regex, text: &'a str) -> (group: Option<&'a str>)
    requires
        regex_source(*regex) == EVENT_SHEBANG_REGEXP@,
    ensures
        match group {
            Some(group) => marked_block(text@) == Some(group@),
            None => marked_block(text@) is None,
        },
{
    regex.captures(text)?.get(1).map(|group| group.as_str())
}

/// The options in the text of an event.
pub open spec fn event_options(content: Seq<char>) -> Option<Map<Seq<char>, Seq<char>>> {
    match marked_block(content) {
        Some(block) => Some(options_in(lines(trimmed(block)))),
        None => None,
    }
}

// ---------------------------------------------------------------------------
// Projects
// ---------------------------------------------------------------------------

/// Projects by their codes. Where a code comes twice, the later project counts.
pub open spec fn projects_by_code(projects: Seq<ProjectRow>) -> Map<Seq<char>, ProjectRow>
    decreases projects.len(),
{
    if projects.len() == 0 {
        Map::empty()
    } else {
        projects_by_code(projects.drop_last()).insert(projects.last().code@, projects.last())
    }
}

/// Arranges projects by their codes.
pub fn index_projects(projects: Vec<ProjectRow>) -> (index: NameMap<ProjectRow>)
    ensures
        index@ == projects_by_code(projects@),
{
    let mut index: NameMap<ProjectRow> = NameMap::new();
    for project in iter: projects
        invariant
            iter.seq() == projects@,
            index@ == projects_by_code(projects@.take(iter.index())),
    {
        assert(projects@.take(iter.index() + 1).drop_last() =~= projects@.take(iter.index()));
        let code: String = project.code.clone();
        index = index.with(code, project);
    }
    assert(projects@.take(projects@.len() as int) =~= projects@);
    index
}

/// The project that options name.
pub open spec fn project_for(
    options: Map<Seq<char>, Seq<char>>,
    projects: Map<Seq<char>, ProjectRow>,
) -> Result<ProjectRow, ServiceErrorView> {
    if !options.contains_key(PROJECT_OPTION@) {
        Err(ServiceErrorView::InvalidEventFormat("No project code in options"@))
    } else if !projects.contains_key(options[PROJECT_OPTION@]) {
        Err(ServiceErrorView::ResourceNotFound("Project "@ + options[PROJECT_OPTION@]))
    } else {
        Ok(projects[options[PROJECT_OPTION@]])
    }
}

// ---------------------------------------------------------------------------
// Tasks
// ---------------------------------------------------------------------------

/// What a new task is made from.
#[derive(Debug)]
pub struct CreateTaskParams {
    pub name: String,
    pub task_type: String,
    pub schedule: Option<String>,
    pub project_id: Uuid,
    pub external_id: Option<String>,
    pub external_modified_at: Option<UtcTime>,
    pub start_at: i32,
    pub options: Value,
}

/// [`CreateTaskParams`] with the texts as character sequences and the options as
/// what they hold.
pub struct TaskParamsView {
    pub name: Seq<char>,
    pub task_type: Seq<char>,
    pub schedule: Option<Seq<char>>,
    pub project_id: Uuid,
    pub external_id: Option<Seq<char>>,
    pub external_modified_at: Option<UtcTime>,
    pub start_at: i32,
    pub options: JsonView,
}

/// An optional text as a character sequence.
pub open spec fn optional_text(text: Option<String>) -> Option<Seq<char>> {
    match text {
        Some(text) => Some(text@),
        None => None,
    }
}

impl View for CreateTaskParams {
    type V = TaskParamsView;

    open spec fn view(&self) -> TaskParamsView {
        TaskParamsView {
            name: self.name@,
            task_type: self.task_type@,
            schedule: optional_text(self.schedule),
            project_id: self.project_id,
            external_id: optional_text(self.external_id),
            external_modified_at: self.external_modified_at,
            start_at: self.start_at,
            options: json_view(self.options),
        }
    }
}

/// A JSON object of texts.
pub open spec fn text_object(texts: Map<Seq<char>, Seq<char>>) -> JsonView {
    JsonView::Object(texts.map_values(|text: Seq<char>| JsonView::Text(text)))
}

/// The task that an event asks for, given its options, its project and its
/// points in time. The start is cut to its low 32 bits.
pub open spec fn task_params(
    event: ExchangeEvent,
    options: Map<Seq<char>, Seq<char>>,
    project: ProjectRow,
    start: UtcTime,
    modified: UtcTime,
) -> TaskParamsView {
    TaskParamsView {
        name: event.subject@,
        task_type: TASK_TYPE@,
        schedule: None,
        project_id: project.id,
        external_id: Some(event.id@),
        external_modified_at: Some(modified),
        start_at: start.seconds as i32,
        options: text_object(options),
    }
}

/// The task that an event asks for.
pub open spec fn event_task(
    event: ExchangeEvent,
    projects: Map<Seq<char>, ProjectRow>,
) -> Result<TaskParamsView, ServiceErrorView> {
    match event_options(event.body.content@) {
        None => Err(ServiceErrorView::InvalidEventFormat("No bot options found in event"@)),
        Some(options) => match project_for(options, projects) {
            Err(error) => Err(error),
            Ok(project) => match event_time(event.start.timezone@, event.start.date_time@) {
                Err(error) => Err(error),
                Ok(start) => match modification_time(event.last_modified@) {
                    Err(error) => Err(error),
                    Ok(modified) => Ok(task_params(event, options, project, start, modified)),
                },
            },
        },
    }
}

/// A result with its value and its error as their views.
pub open spec fn params_view(params: ServiceResult<CreateTaskParams>) -> Result<
    TaskParamsView,
    ServiceErrorView,
> {
    match params {
        Ok(params) => Ok(params@),
        Err(error) => Err(error@),
    }
}

/// The members of an object of texts are the texts of the map.
proof fn lemma_text_members(texts: Seq<(String, String)>, values: Seq<(String, Value)>)
    requires
        texts.len() == values.len(),
        forall|i: int|
            0 <= i < texts.len() ==> (#[trigger] values[i]).0@ == texts[i].0@ && json_view(
                values[i].1,
            ) == JsonView::Text(texts[i].1@),
    ensures
        JsonView::Object(entry_members(values)) == text_object(option_texts(entry_map(texts))),
    decreases texts.len(),
{
    if texts.len() == 0 {
        assert(entry_members(values) =~= option_texts(entry_map(texts)).map_values(
            |text: Seq<char>| JsonView::Text(text),
        ));
    } else {
        let front = texts.drop_last();
        let front_values = values.drop_last();
        assert forall|i: int| 0 <= i < front.len() implies (#[trigger] front_values[i]).0@
            == front[i].0@ && json_view(front_values[i].1) == JsonView::Text(front[i].1@) by {
            assert(front_values[i] == values[i]);
        }
        lemma_text_members(front, front_values);
        assert(values.last() == values[values.len() - 1]);
        assert(entry_members(values) =~= option_texts(entry_map(texts)).map_values(
            |text: Seq<char>| JsonView::Text(text),
        ));
    }
}

/// Writes options as a JSON object.
pub fn options_value(options: NameMap<String>) -> (value: Value)
    ensures
        json_view(value) == text_object(option_texts(options@)),
{
    let texts: Vec<(String, String)> = options.into_entries();
    let mut values: Vec<(String, Value)> = Vec::new();
    for entry in iter: texts
        invariant
            iter.seq() == texts@,
            values@.len() == iter.index(),
            forall|i: int|
                0 <= i < iter.index() ==> (#[trigger] values@[i]).0@ == texts@[i].0@ && json_view(
                    values@[i].1,
                ) == JsonView::Text(texts@[i].1@),
    {
        let (name, text) = entry;
        values.push((name, json_text(text)));
    }
    proof {
        lemma_text_members(texts@, values@);
        assert forall|i: int, j: int| 0 <= i < j < values@.len() implies (
        #[trigger] values@[i]).0@ != (#[trigger] values@[j]).0@ by {
            assert(texts@[i].0@ != texts@[j].0@);
        }
    }
    json_object(values)
}

/// What became of an event that carries the mark.
#[derive(Debug)]
pub struct EventOutcome {
    pub subject: String,
    pub params: ServiceResult<CreateTaskParams>,
}

/// An [`EventOutcome`] with its texts as character sequences.
pub struct OutcomeView {
    pub subject: Seq<char>,
    pub params: Result<TaskParamsView, ServiceErrorView>,
}

impl View for EventOutcome {
    type V = OutcomeView;

    open spec fn view(&self) -> OutcomeView {
        OutcomeView { subject: self.subject@, params: params_view(self.params) }
    }
}

/// What becomes of events: those that carry the mark are tried in their order,
/// the others are passed over.
pub open spec fn event_outcomes(
    events: Seq<ExchangeEvent>,
    projects: Map<Seq<char>, ProjectRow>,
) -> Seq<OutcomeView>
    decreases events.len(),
{
    if events.len() == 0 {
        Seq::empty()
    } else {
        let earlier = event_outcomes(events.drop_last(), projects);
        let event = events.last();
        if contains_text(event.body.content@, EVENT_SHEBANG@) {
            earlier.push(
                OutcomeView { subject: event.subject@, params: event_task(event, projects) },
            )
        } else {
            earlier
        }
    }
}

/// Outcomes as their views.
pub open spec fn outcome_views(outcomes: Seq<EventOutcome>) -> Seq<OutcomeView> {
    outcomes.map_values(|outcome: EventOutcome| outcome@)
}

/// Turns events into tasks.
#[derive(Debug)]
pub struct EventProcessor {
    regex: Regex,
}

impl EventProcessor {
    #[verifier::type_invariant]
    spec fn finds_the_block(self) -> bool {
        regex_source(self.regex) == EVENT_SHEBANG_REGEXP@
    }

    /// A processor for events.
    pub fn new() -> (processor: ServiceResult<EventProcessor>)
        ensures
            match regex_fault(EVENT_SHEBANG_REGEXP@) {
                None => processor is Ok,
                Some(fault) => processor matches Err(error) && error@
                    == ServiceErrorView::ParseError("Failed to parse bot options regexp: "@ + fault),
            },
    {
        match compile_regex(EVENT_SHEBANG_REGEXP) {
            Ok(regex) => Ok(EventProcessor { regex }),
            Err(error) => Err(
                ServiceError::parse_error(
                    concat2("Failed to parse bot options regexp: ", error.as_str()).as_str(),
                ),
            ),
        }
    }

    /// Reads the options in the text of an event.
    pub fn parse_event_options(&self, event: &ExchangeEvent) -> (options: ServiceResult<
        NameMap<String>,
    >)
        ensures
            match event_options(event.body.content@) {
                Some(texts) => options matches Ok(options) && option_texts(options@) == texts,
                None => options matches Err(error) && error@
                    == ServiceErrorView::InvalidEventFormat("No bot options found in event"@),
            },
    {
        proof {
            use_type_invariant(self);
        }
        match first_group(&self.regex, event.body.content.as_str()) {
            Some(block) => parse_options(trim(block)),
            None => Err(ServiceError::invalid_event("No bot options found in event")),
        }
    }

    /// The project that options name.
    pub fn get_project_from_options<'b>(
        &self,
        options: &NameMap<String>,
        projects: &'b NameMap<ProjectRow>,
    ) -> (project: ServiceResult<&'b ProjectRow>)
        ensures
            match project_for(option_texts(options@), projects@) {
                Ok(row) => project matches Ok(project) && *project == row,
                Err(expected) => project matches Err(error) && error@ == expected,
            },
    {
        match options.get(PROJECT_OPTION) {
            None => Err(ServiceError::invalid_event("No project code in options")),
            Some(code) => match projects.get(code.as_str()) {
                Some(project) => Ok(project),
                None => Err(ServiceError::ResourceNotFound(concat2("Project ", code.as_str()))),
            },
        }
    }

    /// The task that an event asks for.
    pub fn process_single_event(&self, event: &ExchangeEvent, projects: &NameMap<ProjectRow>) -> (
        params: ServiceResult<CreateTaskParams>)
        ensures
            params_view(params) == event_task(*event, projects@),
    {
        let options: NameMap<String> = match self.parse_event_options(event) {
            Ok(options) => options,
            Err(error) => {
                return Err(error);
            },
        };
        let project: &ProjectRow = match self.get_project_from_options(&options, projects) {
            Ok(project) => project,
            Err(error) => {
                return Err(error);
            },
        };
        let start: UtcTime = match parse_event_time(&event.start) {
            Ok(start) => start,
            Err(error) => {
                return Err(error);
            },
        };
        let modified: UtcTime = match parse_modification_time(event.last_modified.as_str()) {
            Ok(modified) => modified,
            Err(error) => {
                return Err(error);
            },
        };
        Ok(
            CreateTaskParams {
                name: event.subject.clone(),
                task_type: TASK_TYPE.to_owned(),
                schedule: None,
                project_id: project.id,
                external_id: Some(event.id.clone()),
                external_modified_at: Some(modified),
                start_at: #[verifier::truncate] (start.seconds as i32),
                options: options_value(options),
            },
        )
    }

    /// Tries every event that carries the mark.
    pub fn process_events(&self, events: Vec<ExchangeEvent>, projects: Vec<ProjectRow>) -> (outcomes:
        Vec<EventOutcome>)
        ensures
            outcome_views(outcomes@) == event_outcomes(events@, projects_by_code(projects@)),
    {
        let index: NameMap<ProjectRow> = index_projects(projects);
        let mut outcomes: Vec<EventOutcome> = Vec::new();
        assert(outcome_views(outcomes@) =~= Seq::empty());
        for event in iter: events
            invariant
                iter.seq() == events@,
                index@ == projects_by_code(projects@),
                outcome_views(outcomes@) == event_outcomes(
                    events@.take(iter.index()),
                    projects_by_code(projects@),
                ),
        {
            assert(events@.take(iter.index() + 1).drop_last() =~= events@.take(iter.index()));
            let ghost before = outcomes@;
            if contains(event.body.content.as_str(), EVENT_SHEBANG) {
                let params: ServiceResult<CreateTaskParams> = self.process_single_event(
                    &event,
                    &index,
                );
                let outcome: EventOutcome = EventOutcome { subject: event.subject, params };
                let ghost view = outcome@;
                outcomes.push(outcome);
                assert(outcome_views(outcomes@) =~= outcome_views(before).push(view));
            }
        }
        assert(events@.take(events@.len() as int) =~= events@);
        outcomes
    }
}

// ---------------------------------------------------------------------------
// Laws
// ---------------------------------------------------------------------------

/// What stands before the first mark and after the last one is ignored: the
/// block is the text between them.
pub proof fn law_text_around_the_marks_is_ignored(
    before: Seq<char>,
    block: Seq<char>,
    after: Seq<char>,
)
    requires
        forall|at: int| #[trigger]
            occurs_at(before + EVENT_SHEBANG@ + block + EVENT_SHEBANG@ + after, EVENT_SHEBANG@, at)
                ==> before.len() <= at <= before.len() + EVENT_SHEBANG@.len() + block.len(),
    ensures
        marked_block(before + EVENT_SHEBANG@ + block + EVENT_SHEBANG@ + after) == Some(block),
{
    let mark = EVENT_SHEBANG@;
    let text = before + mark + block + mark + after;
    let first = before.len() as int;
    let last = first + mark.len() + block.len();
    assert(text.subrange(first, first + mark.len()) =~= mark);
    assert(text.subrange(last, last + mark.len()) =~= mark);
    assert(marked_between(text, first, last));
    let (chosen_first, chosen_last) = choose|first: int, last: int|
        marked_between(text, first, last);
    assert(occurs_at(text, mark, chosen_first) && occurs_at(text, mark, chosen_last));
    assert(occurs_at(text, mark, first) && occurs_at(text, mark, last));
    assert(chosen_first == first && chosen_last == last);
    assert(text.subrange(first + mark.len(), last) =~= block);
}

/// A text without the mark has no block, so an event without it asks for no
/// task.
pub proof fn law_unmarked_event_asks_for_no_task(
    event: ExchangeEvent,
    projects: Map<Seq<char>, ProjectRow>,
)
    requires
        !contains_text(event.body.content@, EVENT_SHEBANG@),
    ensures
        event_task(event, projects) is Err,
{
    let text = event.body.content@;
    if exists|first: int, last: int| marked_between(text, first, last) {
        let (first, last) = choose|first: int, last: int| marked_between(text, first, last);
        assert(occurs_at(text, EVENT_SHEBANG@, first));
    }
}

/// One event does not change what becomes of another: the outcomes of two lists
/// of events, one after the other, are those of the first and then those of the
/// second.
pub proof fn law_events_are_independent(
    first: Seq<ExchangeEvent>,
    second: Seq<ExchangeEvent>,
    projects: Map<Seq<char>, ProjectRow>,
)
    ensures
        event_outcomes(first + second, projects) == event_outcomes(first, projects)
            + event_outcomes(second, projects),
    decreases second.len(),
{
    if second.len() == 0 {
        assert(first + second =~= first);
    } else {
        assert((first + second).drop_last() =~= first + second.drop_last());
        assert((first + second).last() == second.last());
        law_events_are_independent(first, second.drop_last(), projects);
    }
    assert(event_outcomes(first + second, projects) =~= event_outcomes(first, projects)
        + event_outcomes(second, projects));
}

/// A task that comes from an event belongs to a known project, is named and
/// identified as the event is, and has no schedule of its own.
pub proof fn law_task_stands_for_its_event(
    event: ExchangeEvent,
    projects: Map<Seq<char>, ProjectRow>,
)
    requires
        event_task(event, projects) is Ok,
    ensures
        event_task(event, projects)->Ok_0.name == event.subject@,
        event_task(event, projects)->Ok_0.external_id == Some(event.id@),
        event_task(event, projects)->Ok_0.schedule is None,
        exists|code: Seq<char>| #[trigger]
            projects.contains_key(code) && event_task(event, projects)->Ok_0.project_id
                == projects[code].id,
{
    let options = event_options(event.body.content@)->0;
    assert(projects.contains_key(options[PROJECT_OPTION@]));
}

} // verus!
