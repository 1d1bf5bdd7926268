//! The worker that reports failed TeamCity builds.

use crate::entity::task::Task;
use crate::executor::actions::zulip::{is_success, status_succeeded, ZULIP};
use crate::executor::actions::{notification_options, notification_view, Action};
use crate::executor::workers::settings::{config_value, get_config_value};
use crate::executor::workers::{WorkerError, WorkerErrorView, WorkerOptions};
use crate::json::{
    json_null, json_rendering, json_text, json_view, optional_view, text_member, JsonView,
};
use crate::template::{filled, filled_view, format_template, no_variables, with_variable};
use crate::text::{concat2, concat3, same_text};
use mini_moka::sync::Cache;
use serde_json::Value;
use vstd::prelude::*;

verus! {

/// How many seconds a connection may take.
pub const CONNECTION_TIMEOUT: u64 = 1024;

/// How many seconds a request may take.
pub const REQUEST_TIMEOUT: u64 = 15;

/// How many seconds a reported build is remembered.
pub const BUILD_CACHE_TTL: u64 = 432_000;

/// How many reported builds are remembered.
pub const CACHE_MAX_CAPACITY: u64 = 10_000;

/// The longest time in seconds for which a cache can be told to keep an entry.
pub const LONGEST_IDLE: u64 = 31_536_000_000;

/// The format in which the server is asked to answer.
pub const ACCEPT_HEADER: &'static str = "application/json";

/// The state of a build that has ended.
pub const FINISHED: &'static str = "finished";

/// The status of a build that has failed.
pub const FAILURE: &'static str = "FAILURE";

// ---------------------------------------------------------------------------
// The cache of reported builds
// ---------------------------------------------------------------------------

/// Declares the cache of `mini_moka`.
#[verifier::external_type_specification]
#[verifier::external_body]
#[verifier::reject_recursive_types(K)]
#[verifier::reject_recursive_types(V)]
#[verifier::reject_recursive_types(S)]
pub struct ExCache<K, V, S>(mini_moka::sync::Cache<K, V, S>);

/// The keys that have been put into a cache. The cache holds no other keys, but
/// it may have dropped some of these.
pub uninterp spec fn cached_keys(cache: mini_moka::sync::Cache<u64, bool>) -> Set<u64>;

/// What a cache was made with: the seconds after which an idle entry goes, and
/// the number of entries that it keeps.
pub uninterp spec fn cache_policy(cache: mini_moka::sync::Cache<u64, bool>) -> (u64, u64);

/// `mini_moka::sync::Cache::builder` with `time_to_idle` and `max_capacity`: a
/// cache with this policy, into which nothing has been put. It refuses a time
/// of more than a thousand years.
#[verifier::external_body]
fn cache_new(idle_seconds: u64, capacity: u64) -> (cache: Cache<u64, bool>)
    requires
        idle_seconds <= LONGEST_IDLE,
    ensures
        cached_keys(cache) == Set::<u64>::empty(),
        cache_policy(cache) == (idle_seconds, capacity),
{
    Cache::builder()
        .time_to_idle(std::time::Duration::from_secs(idle_seconds))
        .max_capacity(capacity)
        .build()
}

/// `mini_moka::sync::Cache::contains_key`: a key that the cache holds has been
/// put into it. That a key which has been put into it is still there is not
/// promised: entries go as time passes and as others come.
#[verifier::external_body]
fn cache_contains(cache: &Cache<u64, bool>, key: u64) -> (found: bool)
    ensures
        found ==> cached_keys(*cache).contains(key),
{
    cache.contains_key(&key)
}

/// `mini_moka::sync::Cache::insert`: the key has been put into the cache.
#[verifier::external_body]
fn cache_insert(cache: &mut Cache<u64, bool>, key: u64, value: bool)
    ensures
        cached_keys(*final(cache)) == cached_keys(*old(cache)).insert(key),
        cache_policy(*final(cache)) == cache_policy(*old(cache)),
{
    cache.insert(key, value)
}

// ---------------------------------------------------------------------------
// Types
// ---------------------------------------------------------------------------

/// Why a build cannot be reported.
#[derive(Debug)]
pub enum TeamCityError {
    Config(String),
    ApiRequest(String),
    MissingFieldError(String),
}

/// A [`TeamCityError`] with its text as a character sequence.
pub enum TeamCityErrorView {
    Config(Seq<char>),
    ApiRequest(Seq<char>),
    MissingFieldError(Seq<char>),
}

impl View for TeamCityError {
    type V = TeamCityErrorView;

    open spec fn view(&self) -> TeamCityErrorView {
        match *self {
            TeamCityError::Config(text) => TeamCityErrorView::Config(text@),
            TeamCityError::ApiRequest(text) => TeamCityErrorView::ApiRequest(text@),
            TeamCityError::MissingFieldError(field) => TeamCityErrorView::MissingFieldError(field@),
        }
    }
}

impl TeamCityErrorView {
    /// The message that a person reads.
    pub open spec fn message(self) -> Seq<char> {
        match self {
            TeamCityErrorView::Config(text) => "Configuration error: "@ + text,
            TeamCityErrorView::ApiRequest(text) => "API request failed: "@ + text,
            TeamCityErrorView::MissingFieldError(field) => "Missing required field: "@ + field,
        }
    }
}

impl TeamCityError {
    /// The message that a person reads.
    pub fn message(&self) -> (message: String)
        ensures
            message@ == self@.message(),
    {
        match self {
            TeamCityError::Config(text) => concat2("Configuration error: ", text.as_str()),
            TeamCityError::ApiRequest(text) => concat2("API request failed: ", text.as_str()),
            TeamCityError::MissingFieldError(field) =>
                concat2("Missing required field: ", field.as_str()),
        }
    }
}

/// The TeamCity server.
#[derive(Debug)]
pub struct Options {
    pub url: String,
}

/// How many tests of a build passed and failed.
#[derive(Debug)]
pub struct TestOccurrences {
    pub passed: Option<i32>,
    pub failed: Option<i32>,
}

/// What is built.
#[derive(Debug)]
pub struct BuildType {
    pub name: String,
    pub project_name: String,
}

/// The status of a build.
#[derive(Debug)]
pub struct BuildStatusResponse {
    pub id: u64,
    pub state: String,
    pub status: String,
    pub build_type: BuildType,
    pub status_text: String,
    pub web_url: String,
    pub finish_date: String,
    pub test_occurrences: Option<TestOccurrences>,
}

/// Where a notification goes.
#[derive(Debug)]
pub struct NotificationConfig {
    pub channel: Value,
    pub topic: Option<Value>,
}

/// The worker that reports failed builds.
pub struct TeamCity {
    config: Options,
    build_cache: Cache<u64, bool>,
}

// ---------------------------------------------------------------------------
// Specifications
// ---------------------------------------------------------------------------

/// A build has ended and failed.
pub open spec fn has_failed(build: BuildStatusResponse) -> bool {
    build.state@ == FINISHED@ && build.status@ == FAILURE@
}

/// The variables of the template for a build.
pub open spec fn build_variables(build: BuildStatusResponse) -> Map<Seq<char>, Seq<char>> {
    Map::<Seq<char>, Seq<char>>::empty().insert("name"@, build.build_type.name@).insert(
        "project_name"@,
        build.build_type.project_name@,
    ).insert("status"@, build.status_text@).insert("web_url"@, build.web_url@)
}

/// The topic of a notification for `task`; without the setting it is null.
pub open spec fn topic_view(task: Task) -> JsonView {
    match config_value(task, "topic"@) {
        Some(topic) => topic,
        None => JsonView::Null,
    }
}

/// An action sends `message` to the channel and topic of `task`.
pub open spec fn delivers(action: Action, task: Task, message: Seq<char>) -> bool {
    &&& action.name@ == ZULIP@
    &&& action.task_id == task.id
    &&& action.options@ == json_rendering(
        notification_view(
            JsonView::Text(message),
            config_value(task, "channel"@)->0,
            topic_view(task),
        ),
    )
}

/// An action sends a message for `task`, or the error tells that there is no
/// message or no channel.
pub open spec fn is_message_notification(
    action: Result<Action, WorkerError>,
    message: Result<Seq<char>, Seq<char>>,
    task: Task,
) -> bool {
    match (action, message) {
        (Ok(action), Ok(message)) => config_value(task, "channel"@) is Some && delivers(
            action,
            task,
            message,
        ),
        (Err(error), Ok(message)) => config_value(task, "channel"@) is None && error@
            == WorkerErrorView::TeamCity(TeamCityErrorView::MissingFieldError("channel"@)),
        (Err(error), Err(text)) => error@ == WorkerErrorView::Other(text),
        (Ok(_), Err(_)) => false,
    }
}

/// Why a failed build cannot be reported for `task`: there is no template, the
/// template is wrong, or there is no channel.
pub open spec fn report_error(task: Task, build: BuildStatusResponse) -> Option<WorkerErrorView> {
    match json_view(task.options).text_member("template"@) {
        None => Some(
            WorkerErrorView::TeamCity(TeamCityErrorView::MissingFieldError("template"@)),
        ),
        Some(template) => match filled(template, build_variables(build)) {
            Err(text) => Some(WorkerErrorView::Other(text)),
            Ok(_) => if config_value(task, "channel"@) is None {
                Some(WorkerErrorView::TeamCity(TeamCityErrorView::MissingFieldError("channel"@)))
            } else {
                None
            },
        },
    }
}

/// The message about a failed build.
pub open spec fn report_message(task: Task, build: BuildStatusResponse) -> Seq<char> {
    filled(
        json_view(task.options).text_member("template"@)->0,
        build_variables(build),
    )->Ok_0
}

/// An action reports a failed build for `task`, or the error tells why it cannot
/// be reported.
pub open spec fn is_report(
    action: Result<Action, WorkerError>,
    task: Task,
    build: BuildStatusResponse,
) -> bool {
    match action {
        Ok(action) => report_error(task, build) is None && delivers(
            action,
            task,
            report_message(task, build),
        ),
        Err(error) => report_error(task, build) == Some(error@),
    }
}

// ---------------------------------------------------------------------------
// The worker
// ---------------------------------------------------------------------------

impl TeamCity {
    /// The options of the worker.
    pub closed spec fn options(self) -> Options {
        self.config
    }

    /// The builds that have been reported.
    pub closed spec fn reported(self) -> Set<u64> {
        cached_keys(self.build_cache)
    }

    /// `answer` is one that the memory may give when it is asked for a build.
    pub closed spec fn answers(self, id: u64, answer: bool) -> bool {
        call_ensures(cache_contains, (&self.build_cache, id), answer)
    }

    /// How long and how many reported builds are remembered.
    pub closed spec fn memory(self) -> (u64, u64) {
        cache_policy(self.build_cache)
    }

    /// A worker with these options, which it cannot do without. It has reported
    /// nothing.
    pub fn new(config: WorkerOptions<Options>) -> (worker: Result<TeamCity, TeamCityError>)
        ensures
            match config {
                WorkerOptions::Missing => worker matches Err(error) && error@
                    == TeamCityErrorView::Config("Missing configuration"@),
                WorkerOptions::Invalid => worker matches Err(error) && error@
                    == TeamCityErrorView::Config("Invalid configuration"@),
                WorkerOptions::Given(config) => worker matches Ok(worker) && worker.options() == config
                    && worker.reported() == Set::<u64>::empty() && worker.memory() == (
                    BUILD_CACHE_TTL,
                    CACHE_MAX_CAPACITY,
                ),
            },
    {
        match config {
            WorkerOptions::Missing => Err(
                TeamCityError::Config("Missing configuration".to_owned()),
            ),
            WorkerOptions::Invalid => Err(
                TeamCityError::Config("Invalid configuration".to_owned()),
            ),
            WorkerOptions::Given(config) => Ok(
                TeamCity { config, build_cache: cache_new(BUILD_CACHE_TTL, CACHE_MAX_CAPACITY) },
            ),
        }
    }

    /// The address of the last build of `build_name`.
    pub fn build_url(&self, build_name: &str) -> (url: String)
        ensures
            url@ == self.options().url@ + "/builds/buildType:"@ + build_name@,
    {
        concat3(self.config.url.as_str(), "/builds/buildType:", build_name)
    }

    /// The error of a request that got no readable response.
    pub fn request_failure(error: &str) -> (failure: TeamCityError)
        ensures
            failure@ == TeamCityErrorView::ApiRequest(error@),
    {
        TeamCityError::ApiRequest(error.to_owned())
    }

    /// Judges the status of a response; `text` is the status in words.
    pub fn check_status(status: u16, text: &str) -> (outcome: Result<(), TeamCityError>)
        ensures
            match outcome {
                Ok(_) => is_success(status),
                Err(error) => !is_success(status) && error@ == TeamCityErrorView::ApiRequest(
                    "Status code: "@ + text@,
                ),
            },
    {
        if status_succeeded(status) {
            Ok(())
        } else {
            Err(TeamCityError::ApiRequest(concat2("Status code: ", text)))
        }
    }

    /// Collects where a notification for `task` goes.
    pub fn validate_task_config(&self, task: &Task) -> (config: Result<
        NotificationConfig,
        TeamCityError,
    >)
        ensures
            match config {
                Ok(config) => config_value(*task, "channel"@) == Some(json_view(config.channel))
                    && config_value(*task, "topic"@) == optional_view(config.topic),
                Err(error) => config_value(*task, "channel"@) is None && error@
                    == TeamCityErrorView::MissingFieldError("channel"@),
            },
    {
        let channel: Value = match get_config_value(task, "channel") {
            Some(channel) => channel,
            None => {
                return Err(TeamCityError::MissingFieldError("channel".to_owned()));
            },
        };
        let topic: Option<Value> = get_config_value(task, "topic");
        Ok(NotificationConfig { channel, topic })
    }

    /// Makes the action that sends `message` for `task`.
    pub fn create_notification_action(
        &self,
        task: &Task,
        message: String,
        config: NotificationConfig,
    ) -> (action: Action)
        ensures
            action.name@ == ZULIP@,
            action.task_id == task.id,
            action.options@ == json_rendering(
                notification_view(
                    JsonView::Text(message@),
                    json_view(config.channel),
                    match optional_view(config.topic) {
                        Some(topic) => topic,
                        None => JsonView::Null,
                    },
                ),
            ),
    {
        let topic: Value = match config.topic {
            Some(topic) => topic,
            None => json_null(),
        };
        Action {
            name: ZULIP.to_owned(),
            task_id: task.id,
            options: notification_options(json_text(message), config.channel, topic),
        }
    }

    /// Makes the action that sends a message for `task`, where there is a message.
    pub fn message_notification(&self, message: Result<String, String>, task: &Task) -> (action:
        Result<Action, WorkerError>)
        ensures
            is_message_notification(action, filled_view(message), *task),
    {
        match message {
            Ok(message) => match self.validate_task_config(task) {
                Ok(config) => Ok(self.create_notification_action(task, message, config)),
                Err(error) => Err(WorkerError::TeamCity(error)),
            },
            Err(error) => Err(WorkerError::Other(error)),
        }
    }

    /// Makes the action that reports `build` for `task` with this template.
    pub fn build_notification(&self, build: &BuildStatusResponse, template: &str, task: &Task) -> (
    action: Result<Action, WorkerError>)
        ensures
            is_message_notification(action, filled(template@, build_variables(*build)), *task),
    {
        proof {
            reveal_strlit("name");
            reveal_strlit("project_name");
            reveal_strlit("status");
            reveal_strlit("web_url");
            assert("name"@[0] == 'n' && "project_name"@[0] == 'p');
            assert("status"@[0] == 's' && "web_url"@[0] == 'w');
        }
        let pairs: Vec<(String, String)> = no_variables();
        let pairs = with_variable(pairs, "name", build.build_type.name.clone());
        let pairs = with_variable(pairs, "project_name", build.build_type.project_name.clone());
        let pairs = with_variable(pairs, "status", build.status_text.clone());
        let pairs = with_variable(pairs, "web_url", build.web_url.clone());
        self.message_notification(format_template(template, pairs), task)
    }

    /// Whether `build` is to be reported, given whether it is remembered as
    /// reported.
    pub fn should_notify_unless(build: &BuildStatusResponse, remembered: bool) -> (notify: bool)
        ensures
            notify == (has_failed(*build) && !remembered),
    {
        same_text(build.state.as_str(), FINISHED) && same_text(build.status.as_str(), FAILURE)
            && !remembered
    }

    /// Whether `build` is to be reported. A build that has failed and was not
    /// reported before is; one that has not failed is not. A failed build that
    /// was reported before may have been forgotten.
    pub fn should_notify(&self, build: &BuildStatusResponse) -> (notify: bool)
        ensures
            notify ==> has_failed(*build),
            has_failed(*build) && !self.reported().contains(build.id) ==> notify,
            exists|remembered: bool| #[trigger]
                self.answers(build.id, remembered) && notify == (has_failed(*build)
                    && !remembered),
    {
        let remembered: bool = cache_contains(&self.build_cache, build.id);
        assert(self.answers(build.id, remembered));
        Self::should_notify_unless(build, remembered)
    }

    /// Starts to execute `task`: the address to fetch the build status from.
    pub fn execute(&self, task: &Task) -> (url: Result<String, WorkerError>)
        ensures
            match (url, json_view(task.options).text_member("build"@)) {
                (Ok(url), Some(build)) => url@ == self.options().url@ + "/builds/buildType:"@ + build,
                (Err(error), None) => error@ == WorkerErrorView::TeamCity(
                    TeamCityErrorView::MissingFieldError("build"@),
                ),
                _ => false,
            },
    {
        match text_member(&task.options, "build") {
            Some(build_name) => Ok(self.build_url(build_name)),
            None => Err(
                WorkerError::TeamCity(TeamCityError::MissingFieldError("build".to_owned())),
            ),
        }
    }

    /// Makes the action that reports the failed `build` for `task`, with the
    /// template of the task.
    pub fn report_failed(&self, task: &Task, build: &BuildStatusResponse) -> (action: Result<
        Action,
        WorkerError,
    >)
        ensures
            is_report(action, *task, *build),
    {
        match text_member(&task.options, "template") {
            Some(template) => self.build_notification(build, template, task),
            None => Err(
                WorkerError::TeamCity(TeamCityError::MissingFieldError("template".to_owned())),
            ),
        }
    }

    /// Reports `build` for `task` where it is to be reported. It counts as
    /// reported even where the report fails.
    pub fn report_if(&mut self, notify: bool, task: &Task, build: &BuildStatusResponse) -> (action:
        Result<Option<Action>, WorkerError>)
        ensures
            final(self).options() == old(self).options(),
            final(self).memory() == old(self).memory(),
            final(self).reported() == if notify {
                old(self).reported().insert(build.id)
            } else {
                old(self).reported()
            },
            match action {
                Ok(None) => !notify,
                Ok(Some(action)) => notify && is_report(Ok(action), *task, *build),
                Err(error) => notify && is_report(Err(error), *task, *build),
            },
    {
        if notify {
            cache_insert(&mut self.build_cache, build.id, true);
            match self.report_failed(task, build) {
                Ok(action) => Ok(Some(action)),
                Err(error) => Err(error),
            }
        } else {
            Ok(None)
        }
    }

    /// Goes on to execute `task` once the build status is there. A failed build
    /// that was not reported before is reported, and counts as reported even
    /// where the report fails. A build that has not failed is not reported.
    pub fn report(&mut self, task: &Task, build: &BuildStatusResponse) -> (action: Result<
        Option<Action>,
        WorkerError,
    >)
        ensures
            final(self).options() == old(self).options(),
            final(self).memory() == old(self).memory(),
            final(self).reported() == if has_failed(*build) {
                old(self).reported().insert(build.id)
            } else {
                old(self).reported()
            },
            match action {
                Ok(None) => !has_failed(*build) || old(self).reported().contains(build.id),
                Ok(Some(action)) => has_failed(*build) && is_report(Ok(action), *task, *build),
                Err(error) => has_failed(*build) && is_report(Err(error), *task, *build),
            },
            exists|remembered: bool| #[trigger]
                old(self).answers(build.id, remembered) && (action matches Ok(None) <==> !(
                has_failed(*build) && !remembered)),
    {
        let notify: bool = self.should_notify(build);
        assert(has_failed(*build) && !notify ==> self.reported().insert(build.id)
            =~= self.reported());
        self.report_if(notify, task, build)
    }
}

// ---------------------------------------------------------------------------
// Laws
// ---------------------------------------------------------------------------

/// The worker's memory is its cache: the builds that have been reported are the
/// keys that have been put into it, it is asked by the identifier of a build, and
/// it lasts as long as the cache was told.
proof fn law_memory_is_the_cache(worker: TeamCity, id: u64, answer: bool)
    ensures
        worker.options() == worker.config,
        worker.reported() == cached_keys(worker.build_cache),
        worker.memory() == cache_policy(worker.build_cache),
        worker.answers(id, answer) <==> call_ensures(
            cache_contains,
            (&worker.build_cache, id),
            answer,
        ),
{
}

} // verus!
