//! The worker that reports open Gerrit reviews.

use crate::entity::task::Task;
use crate::executor::actions::zulip::{is_success, status_succeeded, ZULIP};
use crate::executor::actions::{notification_options, notification_view, Action};
use crate::executor::workers::settings::{config_value, get_config_value};
use crate::executor::workers::{text_view, text_views, WorkerError, WorkerErrorView, WorkerOptions};
use crate::json::{json_rendering, json_text, json_view, text_member, JsonView};
use crate::template::{filled, filled_view, format_template, no_variables, with_variable};
use crate::text::{begins_with, concat2, decimal, decimal_i32, same_text, strip_prefix};
use serde_json::Value;
use vstd::prelude::*;
use vstd::string::*;

verus! {

/// What stands in front of the data in a response.
pub const GERRIT_RESPONSE_PREFIX: &'static str = ")]}'";

/// The whole response to wrong credentials.
pub const UNAUTHORIZED: &'static str = "Unauthorized";

/// How many seconds a connection may take.
pub const CONNECTION_TIMEOUT: u64 = 1024;

/// How many seconds a request may take.
pub const REQUEST_TIMEOUT: u64 = 15;

/// The Gerrit server and how to log in.
#[derive(Debug)]
pub struct GerritConfig {
    pub login: String,
    pub password: String,
    pub url: String,
}

/// A Gerrit user.
#[derive(Debug)]
pub struct User {
    pub name: String,
    pub email: String,
    pub username: String,
}

/// Who voted under a label.
#[derive(Debug)]
pub struct Label {
    pub rejected: Option<User>,
    pub approved: Option<User>,
    pub disliked: Option<User>,
    pub recommended: Option<User>,
}

/// The labels of a review.
#[derive(Debug)]
pub struct Labels {
    pub verified: Label,
    pub code_review: Label,
}

/// A review.
#[derive(Debug)]
pub struct Review {
    pub id: String,
    pub project: String,
    pub branch: String,
    pub change_id: String,
    pub subject: String,
    pub status: String,
    pub created: String,
    pub updated: String,
    pub submit_type: String,
    pub insertions: i32,
    pub deletions: i32,
    pub unresolved_comment_count: i32,
    pub owner: User,
    pub labels: Labels,
    pub number: i32,
}

/// Why reviews cannot be reported.
#[derive(Debug)]
pub enum GerritError {
    ConfigError(String),
    AuthError,
    ResponseError(String),
    MissingFieldError(String),
}

/// A [`GerritError`] with its text as a character sequence.
pub enum GerritErrorView {
    ConfigError(Seq<char>),
    AuthError,
    ResponseError(Seq<char>),
    MissingFieldError(Seq<char>),
}

impl View for GerritError {
    type V = GerritErrorView;

    open spec fn view(&self) -> GerritErrorView {
        match *self {
            GerritError::ConfigError(text) => GerritErrorView::ConfigError(text@),
            GerritError::AuthError => GerritErrorView::AuthError,
            GerritError::ResponseError(text) => GerritErrorView::ResponseError(text@),
            GerritError::MissingFieldError(field) => GerritErrorView::MissingFieldError(field@),
        }
    }
}

impl GerritErrorView {
    /// The message that a person reads.
    pub open spec fn message(self) -> Seq<char> {
        match self {
            GerritErrorView::ConfigError(text) => "Configuration error: "@ + text,
            GerritErrorView::AuthError => "Authentication failed: Invalid credentials"@,
            GerritErrorView::ResponseError(text) => "Invalid API response: "@ + text,
            GerritErrorView::MissingFieldError(field) => "Missing required field: "@ + field,
        }
    }
}

impl GerritError {
    /// The message that a person reads.
    pub fn message(&self) -> (message: String)
        ensures
            message@ == self@.message(),
    {
        match self {
            GerritError::ConfigError(text) => concat2("Configuration error: ", text.as_str()),
            GerritError::AuthError => "Authentication failed: Invalid credentials".to_owned(),
            GerritError::ResponseError(text) => concat2("Invalid API response: ", text.as_str()),
            GerritError::MissingFieldError(field) =>
                concat2("Missing required field: ", field.as_str()),
        }
    }
}

/// What a task says about the reviews to report.
#[derive(Debug)]
pub struct TaskConfig {
    pub project: String,
    pub query: String,
    pub template: String,
    pub review_template: String,
}

/// The worker that reports reviews.
#[derive(Debug)]
pub struct Gerrit {
    pub config: GerritConfig,
}

// ---------------------------------------------------------------------------
// Specifications
// ---------------------------------------------------------------------------

/// The first field of its own options that a task lacks, or that is no text.
pub open spec fn missing_field(task: Task) -> Option<Seq<char>> {
    let options = json_view(task.options);
    if options.text_member("project"@) is None {
        Some("project"@)
    } else if options.text_member("query"@) is None {
        Some("query"@)
    } else if options.text_member("template"@) is None {
        Some("template"@)
    } else if options.text_member("review_template"@) is None {
        Some("review_template"@)
    } else {
        None
    }
}

/// The configuration holds what the task's own options say.
pub open spec fn is_config_of(config: TaskConfig, task: Task) -> bool {
    let options = json_view(task.options);
    &&& options.text_member("project"@) == Some(config.project@)
    &&& options.text_member("query"@) == Some(config.query@)
    &&& options.text_member("template"@) == Some(config.template@)
    &&& options.text_member("review_template"@) == Some(config.review_template@)
}

/// The address of the reviews of `project` that `query` selects.
pub open spec fn reviews_address(url: Seq<char>, project: Seq<char>, query: Seq<char>) -> Seq<
    char,
> {
    url + "/a/changes/?q="@ + query + " project:"@ + project + "&o=DETAILED_ACCOUNTS&o=LABELS"@
}

/// The variables of the template for one review.
pub open spec fn review_variables(url: Seq<char>, review: Review, project: Seq<char>) -> Map<
    Seq<char>,
    Seq<char>,
> {
    Map::<Seq<char>, Seq<char>>::empty().insert("subject"@, review.subject@).insert(
        "insertions"@,
        decimal(review.insertions as int),
    ).insert("deletions"@, decimal(review.deletions as int)).insert("url"@, url).insert(
        "number"@,
        decimal(review.number as int),
    ).insert("project"@, project)
}

/// The variables of the template for the head of the message.
pub open spec fn head_variables(project: Seq<char>) -> Map<Seq<char>, Seq<char>> {
    Map::<Seq<char>, Seq<char>>::empty().insert("project"@, project)
}

/// What comes of the text for one review.
pub open spec fn review_outcome(text: Result<Seq<char>, Seq<char>>) -> Result<
    Seq<char>,
    WorkerErrorView,
> {
    match text {
        Ok(text) => Ok(text),
        Err(error) => Err(WorkerErrorView::Other("Failed to format message: "@ + error)),
    }
}

/// The text for one review.
pub open spec fn review_text(
    url: Seq<char>,
    review: Review,
    template: Seq<char>,
    project: Seq<char>,
) -> Result<Seq<char>, WorkerErrorView> {
    review_outcome(filled(template, review_variables(url, review, project)))
}

/// Some texts, one after the other, or the first error among them.
pub open spec fn joined(texts: Seq<Result<Seq<char>, WorkerErrorView>>) -> Result<
    Seq<char>,
    WorkerErrorView,
>
    decreases texts.len(),
{
    if texts.len() == 0 {
        Ok(Seq::empty())
    } else {
        match joined(texts.drop_last()) {
            Ok(front) => match texts.last() {
                Ok(text) => Ok(front + text),
                Err(error) => Err(error),
            },
            Err(error) => Err(error),
        }
    }
}

/// The head of a message followed by some texts, or the first error.
pub open spec fn joined_message(
    head: Result<Seq<char>, Seq<char>>,
    texts: Seq<Result<Seq<char>, WorkerErrorView>>,
) -> Result<Seq<char>, WorkerErrorView> {
    match head {
        Ok(head) => match joined(texts) {
            Ok(text) => Ok(head + text),
            Err(error) => Err(error),
        },
        Err(error) => Err(WorkerErrorView::Other(error)),
    }
}

/// The text for each of some reviews.
pub open spec fn review_texts(
    url: Seq<char>,
    reviews: Seq<Review>,
    template: Seq<char>,
    project: Seq<char>,
) -> Seq<Result<Seq<char>, WorkerErrorView>> {
    reviews.map_values(|review: Review| review_text(url, review, template, project))
}

/// The texts for some reviews, one after the other, or the first error among
/// them.
pub open spec fn reviews_text(
    url: Seq<char>,
    reviews: Seq<Review>,
    template: Seq<char>,
    project: Seq<char>,
) -> Result<Seq<char>, WorkerErrorView> {
    joined(review_texts(url, reviews, template, project))
}

/// The message about some reviews: the head, then the texts for the reviews.
pub open spec fn message_text(
    url: Seq<char>,
    reviews: Seq<Review>,
    template: Seq<char>,
    review_template: Seq<char>,
    project: Seq<char>,
) -> Result<Seq<char>, WorkerErrorView> {
    joined_message(
        filled(template, head_variables(project)),
        review_texts(url, reviews, review_template, project),
    )
}

/// The first setting for the delivery of a message that a task lacks.
pub open spec fn missing_delivery(task: Task) -> Option<Seq<char>> {
    if config_value(task, "channel"@) is None {
        Some("channel"@)
    } else if config_value(task, "topic"@) is None {
        Some("topic"@)
    } else {
        None
    }
}

/// An action sends `message` to the channel and topic of `task`.
pub open spec fn delivers(action: Action, task: Task, message: Seq<char>) -> bool {
    &&& action.name@ == ZULIP@
    &&& action.task_id == task.id
    &&& action.options@ == json_rendering(
        notification_view(
            JsonView::Text(message),
            config_value(task, "channel"@)->0,
            config_value(task, "topic"@)->0,
        ),
    )
}

// ---------------------------------------------------------------------------
// The worker
// ---------------------------------------------------------------------------

impl Gerrit {
    /// A worker with these options, which it cannot do without.
    pub fn new(config: WorkerOptions<GerritConfig>) -> (worker: Result<Gerrit, GerritError>)
        ensures
            match config {
                WorkerOptions::Missing => worker matches Err(error) && error@
                    == GerritErrorView::ConfigError("Missing configuration"@),
                WorkerOptions::Invalid => worker matches Err(error) && error@
                    == GerritErrorView::ConfigError("Invalid configuration"@),
                WorkerOptions::Given(config) => worker matches Ok(worker) && worker.config
                    == config,
            },
    {
        match config {
            WorkerOptions::Missing => Err(
                GerritError::ConfigError("Missing configuration".to_owned()),
            ),
            WorkerOptions::Invalid => Err(
                GerritError::ConfigError("Invalid configuration".to_owned()),
            ),
            WorkerOptions::Given(config) => Ok(Gerrit { config }),
        }
    }

    /// The address of the reviews of `project` that `query` selects.
    pub fn reviews_url(&self, project: &str, query: &str) -> (url: String)
        ensures
            url@ == reviews_address(self.config.url@, project@, query@),
    {
        let mut url: String = self.config.url.clone();
        url.append("/a/changes/?q=");
        url.append(query);
        url.append(" project:");
        url.append(project);
        url.append("&o=DETAILED_ACCOUNTS&o=LABELS");
        url
    }

    /// The error of a request that got no response.
    pub fn fetch_failure(error: &str) -> (failure: WorkerError)
        ensures
            failure@ == WorkerErrorView::Other("Failed to fetch reviews: "@ + error@),
    {
        WorkerError::Other(concat2("Failed to fetch reviews: ", error))
    }

    /// Judges the status of a response; `text` is the status in words.
    pub fn check_status(status: u16, text: &str) -> (outcome: Result<(), WorkerError>)
        ensures
            match outcome {
                Ok(_) => is_success(status),
                Err(error) => !is_success(status) && error@ == WorkerErrorView::Other(
                    "Request failed with status: "@ + text@,
                ),
            },
    {
        if status_succeeded(status) {
            Ok(())
        } else {
            Err(WorkerError::Other(concat2("Request failed with status: ", text)))
        }
    }

    /// Takes the data out of the text of a response.
    pub fn review_data<'a>(text: &'a str) -> (data: Result<&'a str, GerritError>)
        ensures
            match data {
                Ok(data) => text@ != UNAUTHORIZED@ && text@ == GERRIT_RESPONSE_PREFIX@ + data@,
                Err(error) => if text@ == UNAUTHORIZED@ {
                    error@ == GerritErrorView::AuthError
                } else {
                    !begins_with(text@, GERRIT_RESPONSE_PREFIX@) && error@
                        == GerritErrorView::ResponseError("Invalid response format"@)
                },
            },
    {
        if same_text(text, UNAUTHORIZED) {
            return Err(GerritError::AuthError);
        }
        match strip_prefix(text, GERRIT_RESPONSE_PREFIX) {
            Some(data) => {
                assert(text@ =~= text@.subrange(0, GERRIT_RESPONSE_PREFIX@.len() as int)
                    + text@.skip(GERRIT_RESPONSE_PREFIX@.len() as int));
                Ok(data)
            },
            None => Err(GerritError::ResponseError("Invalid response format".to_owned())),
        }
    }

    /// The error of data that are no reviews.
    pub fn parse_failure(error: &str) -> (failure: WorkerError)
        ensures
            failure@ == WorkerErrorView::Other("Failed to parse response: "@ + error@),
    {
        WorkerError::Other(concat2("Failed to parse response: ", error))
    }

    /// Judges the text for one review.
    pub fn review_message(text: Result<String, String>) -> (outcome: Result<String, WorkerError>)
        ensures
            text_view(outcome) == review_outcome(filled_view(text)),
    {
        match text {
            Ok(text) => Ok(text),
            Err(error) => Err(
                WorkerError::Other(concat2("Failed to format message: ", error.as_str())),
            ),
        }
    }

    /// Puts one review into words.
    pub fn format_review_message(&self, review: &Review, template: &str, project: &str) -> (text:
        Result<String, WorkerError>)
        ensures
            text_view(text) == review_text(self.config.url@, *review, template@, project@),
    {
        proof {
            reveal_strlit("subject");
            reveal_strlit("insertions");
            reveal_strlit("deletions");
            reveal_strlit("url");
            reveal_strlit("number");
            reveal_strlit("project");
            assert("subject"@[0] == 's' && "insertions"@[0] == 'i' && "deletions"@[0] == 'd');
            assert("url"@[0] == 'u' && "number"@[0] == 'n' && "project"@[0] == 'p');
        }
        let pairs: Vec<(String, String)> = no_variables();
        let pairs = with_variable(pairs, "subject", review.subject.clone());
        let pairs = with_variable(pairs, "insertions", decimal_i32(review.insertions));
        let pairs = with_variable(pairs, "deletions", decimal_i32(review.deletions));
        let pairs = with_variable(pairs, "url", self.config.url.clone());
        let pairs = with_variable(pairs, "number", decimal_i32(review.number));
        let pairs = with_variable(pairs, "project", project.to_owned());
        Self::review_message(format_template(template, pairs))
    }

    /// Collects what `task` says about the reviews to report.
    pub fn validate_task_config(&self, task: &Task) -> (config: Result<TaskConfig, GerritError>)
        ensures
            match config {
                Ok(config) => missing_field(*task) is None && is_config_of(config, *task),
                Err(error) => missing_field(*task) matches Some(field) && error@
                    == GerritErrorView::MissingFieldError(field),
            },
    {
        let project: &str = match text_member(&task.options, "project") {
            Some(project) => project,
            None => {
                return Err(GerritError::MissingFieldError("project".to_owned()));
            },
        };
        let query: &str = match text_member(&task.options, "query") {
            Some(query) => query,
            None => {
                return Err(GerritError::MissingFieldError("query".to_owned()));
            },
        };
        let template: &str = match text_member(&task.options, "template") {
            Some(template) => template,
            None => {
                return Err(GerritError::MissingFieldError("template".to_owned()));
            },
        };
        let review_template: &str = match text_member(&task.options, "review_template") {
            Some(review_template) => review_template,
            None => {
                return Err(GerritError::MissingFieldError("review_template".to_owned()));
            },
        };
        Ok(
            TaskConfig {
                project: project.to_owned(),
                query: query.to_owned(),
                template: template.to_owned(),
                review_template: review_template.to_owned(),
            },
        )
    }

    /// Puts a head and texts for reviews together.
    pub fn join_message(
        head: Result<String, String>,
        texts: Vec<Result<String, WorkerError>>,
    ) -> (message: Result<String, WorkerError>)
        ensures
            text_view(message) == joined_message(filled_view(head), text_views(texts@)),
    {
        let mut message: String = match head {
            Ok(head) => head,
            Err(error) => {
                return Err(WorkerError::Other(error));
            },
        };
        let ghost start = message@;
        let ghost all = text_views(texts@);
        assert(message@ =~= start + Seq::<char>::empty());
        assert(all.take(0) =~= Seq::empty());
        for text in iter: texts
            invariant
                iter.seq() == texts@,
                all == text_views(texts@),
                filled_view(head) == Ok::<Seq<char>, Seq<char>>(start),
                joined(all.take(iter.index())) matches Ok(front) && message@ == start + front,
        {
            let ghost index = iter.index();
            proof {
                assert(all.take(index + 1).drop_last() =~= all.take(index));
                assert(all.take(index + 1).last() == text_view(texts@[index]));
            }
            match text {
                Ok(text) => {
                    let ghost front = joined(all.take(index))->Ok_0;
                    message.append(text.as_str());
                    assert(start + front + text@ =~= start + (front + text@));
                },
                Err(error) => {
                    proof {
                        lemma_error_stays(all, index + 1);
                    }
                    return Err(error);
                },
            }
        }
        assert(all.take(all.len() as int) =~= all);
        Ok(message)
    }

    /// Puts the head and the reviews into one message.
    pub fn build_message(
        &self,
        reviews: &Vec<Review>,
        template: &str,
        review_template: &str,
        project: &str,
    ) -> (message: Result<String, WorkerError>)
        ensures
            text_view(message) == message_text(
                self.config.url@,
                reviews@,
                template@,
                review_template@,
                project@,
            ),
    {
        let pairs: Vec<(String, String)> = with_variable(
            no_variables(),
            "project",
            project.to_owned(),
        );
        let head: Result<String, String> = format_template(template, pairs);
        let mut texts: Vec<Result<String, WorkerError>> = Vec::new();
        for review in iter: reviews.iter()
            invariant
                iter.seq().unref() == reviews@,
                texts@.len() == iter.index(),
                forall|i: int|
                    0 <= i < iter.index() ==> text_view(#[trigger] texts@[i]) == review_text(
                        self.config.url@,
                        reviews@[i],
                        review_template@,
                        project@,
                    ),
        {
            texts.push(self.format_review_message(review, review_template, project));
        }
        assert(text_views(texts@) =~= review_texts(
            self.config.url@,
            reviews@,
            review_template@,
            project@,
        ));
        Self::join_message(head, texts)
    }

    /// Makes the action that sends `message` to the channel and topic of `task`.
    pub fn notification_action(task: &Task, message: String) -> (action: Result<
        Action,
        GerritError,
    >)
        ensures
            match action {
                Ok(action) => missing_delivery(*task) is None && delivers(action, *task, message@),
                Err(error) => missing_delivery(*task) matches Some(field) && error@
                    == GerritErrorView::MissingFieldError(field),
            },
    {
        let channel: Value = match get_config_value(task, "channel") {
            Some(channel) => channel,
            None => {
                return Err(GerritError::MissingFieldError("channel".to_owned()));
            },
        };
        let topic: Value = match get_config_value(task, "topic") {
            Some(topic) => topic,
            None => {
                return Err(GerritError::MissingFieldError("topic".to_owned()));
            },
        };
        Ok(
            Action {
                name: ZULIP.to_owned(),
                task_id: task.id,
                options: notification_options(json_text(message), channel, topic),
            },
        )
    }

    /// The error of a notification that could not be sent.
    pub fn send_failure(error: &str) -> (failure: WorkerError)
        ensures
            failure@ == WorkerErrorView::Other("Failed to send notification: "@ + error@),
    {
        WorkerError::Other(concat2("Failed to send notification: ", error))
    }

    /// Starts to execute `task`: what it says, and the address to fetch the
    /// reviews from.
    pub fn execute(&self, task: &Task) -> (request: Result<(TaskConfig, String), WorkerError>)
        ensures
            match request {
                Ok((config, url)) => missing_field(*task) is None && is_config_of(config, *task)
                    && url@ == reviews_address(
                    self.config.url@,
                    config.project@,
                    config.query@,
                ),
                Err(error) => missing_field(*task) matches Some(field) && error@
                    == WorkerErrorView::Gerrit(GerritErrorView::MissingFieldError(field)),
            },
    {
        match self.validate_task_config(task) {
            Ok(config) => {
                let url: String = self.reviews_url(config.project.as_str(), config.query.as_str());
                Ok((config, url))
            },
            Err(error) => Err(WorkerError::Gerrit(error)),
        }
    }

    /// Goes on to execute `task` once the reviews are there: without reviews
    /// there is nothing to send.
    pub fn report(&self, task: &Task, config: &TaskConfig, reviews: &Vec<Review>) -> (action:
        Result<Option<Action>, WorkerError>)
        ensures
            ({
                let message = message_text(
                    self.config.url@,
                    reviews@,
                    config.template@,
                    config.review_template@,
                    config.project@,
                );
                match action {
                    Ok(None) => reviews@.len() == 0,
                    Ok(Some(action)) => reviews@.len() > 0 && missing_delivery(*task) is None && (
                    message matches Ok(text) && delivers(action, *task, text)),
                    Err(error) => reviews@.len() > 0 && match message {
                        Ok(_) => missing_delivery(*task) matches Some(field) && error@
                            == WorkerErrorView::Gerrit(GerritErrorView::MissingFieldError(field)),
                        Err(wrong) => error@ == wrong,
                    },
                }
            }),
    {
        if reviews.len() == 0 {
            return Ok(None);
        }
        let built: Result<String, WorkerError> = self.build_message(
            reviews,
            config.template.as_str(),
            config.review_template.as_str(),
            config.project.as_str(),
        );
        match built {
            Ok(message) => match Self::notification_action(task, message) {
                Ok(action) => Ok(Some(action)),
                Err(error) => Err(WorkerError::Gerrit(error)),
            },
            Err(error) => Err(error),
        }
    }
}

// ---------------------------------------------------------------------------
// Proofs
// ---------------------------------------------------------------------------

/// An error among the first texts is the error of all of them.
proof fn lemma_error_stays(texts: Seq<Result<Seq<char>, WorkerErrorView>>, count: int)
    requires
        0 <= count <= texts.len(),
        joined(texts.take(count)) is Err,
    ensures
        joined(texts) == joined(texts.take(count)),
    decreases texts.len() - count,
{
    if count == texts.len() {
        assert(texts.take(count) =~= texts);
    } else {
        assert(texts.take(count + 1).drop_last() =~= texts.take(count));
        lemma_error_stays(texts, count + 1);
    }
}

/// Texts followed by others, one after the other.
proof fn lemma_joined_in_order(
    first: Seq<Result<Seq<char>, WorkerErrorView>>,
    second: Seq<Result<Seq<char>, WorkerErrorView>>,
)
    requires
        joined(first) is Ok,
        joined(second) is Ok,
    ensures
        joined(first + second) == Ok::<Seq<char>, WorkerErrorView>(
            joined(first)->Ok_0 + joined(second)->Ok_0,
        ),
    decreases second.len(),
{
    if second.len() == 0 {
        assert(first + second =~= first);
        assert(joined(first)->Ok_0 + Seq::<char>::empty() =~= joined(first)->Ok_0);
    } else {
        let front = second.drop_last();
        lemma_joined_in_order(first, front);
        assert((first + second).drop_last() =~= first + front);
        assert((first + second).last() == second.last());
        let a = joined(first)->Ok_0;
        let b = joined(front)->Ok_0;
        let c = second.last()->Ok_0;
        assert((a + b) + c =~= a + (b + c));
    }
}

/// The reviews are reported in their order: the text for some reviews followed
/// by others is the text for the former followed by the text for the latter.
pub proof fn law_reviews_are_reported_in_order(
    url: Seq<char>,
    first: Seq<Review>,
    second: Seq<Review>,
    template: Seq<char>,
    project: Seq<char>,
)
    requires
        reviews_text(url, first, template, project) is Ok,
        reviews_text(url, second, template, project) is Ok,
    ensures
        reviews_text(url, first + second, template, project) == Ok::<Seq<char>, WorkerErrorView>(
            reviews_text(url, first, template, project)->Ok_0 + reviews_text(
                url,
                second,
                template,
                project,
            )->Ok_0,
        ),
{
    assert(review_texts(url, first + second, template, project) =~= review_texts(
        url,
        first,
        template,
        project,
    ) + review_texts(url, second, template, project));
    lemma_joined_in_order(
        review_texts(url, first, template, project),
        review_texts(url, second, template, project),
    );
}

/// The head comes once and first, and the reviews follow it in their order: the
/// message about some reviews and others is the message about the former
/// followed by the message about the latter under the empty head.
pub proof fn law_message_of_joined_reviews(
    url: Seq<char>,
    first: Seq<Review>,
    second: Seq<Review>,
    template: Seq<char>,
    review_template: Seq<char>,
    project: Seq<char>,
)
    requires
        message_text(url, first, template, review_template, project) is Ok,
        message_text(url, second, Seq::empty(), review_template, project) is Ok,
    ensures
        message_text(url, first + second, template, review_template, project) == Ok::<
            Seq<char>,
            WorkerErrorView,
        >(
            message_text(url, first, template, review_template, project)->Ok_0 + message_text(
                url,
                second,
                Seq::empty(),
                review_template,
                project,
            )->Ok_0,
        ),
{
    law_reviews_are_reported_in_order(url, first, second, review_template, project);
    let head = filled(template, head_variables(project))->Ok_0;
    let a = reviews_text(url, first, review_template, project)->Ok_0;
    let b = reviews_text(url, second, review_template, project)->Ok_0;
    assert(Seq::<char>::empty() + b =~= b);
    assert(head + (a + b) =~= (head + a) + b);
}

/// Without reviews the message is its head.
pub proof fn law_message_without_reviews_is_its_head(
    url: Seq<char>,
    template: Seq<char>,
    review_template: Seq<char>,
    project: Seq<char>,
)
    requires
        filled(template, head_variables(project)) is Ok,
    ensures
        message_text(url, Seq::empty(), template, review_template, project) == Ok::<
            Seq<char>,
            WorkerErrorView,
        >(filled(template, head_variables(project))->Ok_0),
{
    let head = filled(template, head_variables(project))->Ok_0;
    assert(review_texts(url, Seq::empty(), review_template, project) =~= Seq::empty());
    assert(head + Seq::<char>::empty() =~= head);
}

/// A response is either the refusal of the credentials or data behind the
/// prefix, never both: data behind the prefix are always found.
pub proof fn law_prefixed_data_are_no_refusal(data: Seq<char>)
    ensures
        GERRIT_RESPONSE_PREFIX@ + data != UNAUTHORIZED@,
{
    reveal_strlit(")]}'");
    reveal_strlit("Unauthorized");
    assert((GERRIT_RESPONSE_PREFIX@ + data)[0] == ')');
    assert(UNAUTHORIZED@[0] == 'U');
}

} // verus!
