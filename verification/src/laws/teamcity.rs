//! Laws of the worker that reports builds.

use crate::entity::task::Task;
use crate::executor::actions::Action;
use crate::executor::workers::settings::get_config_value;
use crate::executor::workers::teamcity::{
    build_variables, BuildStatusResponse, NotificationConfig, Options, TeamCity, TeamCityError,
    TeamCityErrorView,
};
use crate::executor::workers::{WorkerError, WorkerErrorView, WorkerOptions};
use crate::json::{json_view, optional_view, JsonView};
use crate::laws::actions::{lemma_notification_says, says};
use crate::template::filled;
use serde_json::Value;
use vstd::prelude::*;

verus! {

/// The worker asks the server that it was set up with, and cannot do without.
pub proof fn law_build_is_asked_for(
    options: WorkerOptions<Options>,
    worker: Result<TeamCity, TeamCityError>,
    build_name: &str,
    url: String,
)
    requires
        call_ensures(TeamCity::new, (options,), worker),
        worker matches Ok(worker) ==> call_ensures(
            TeamCity::build_url,
            (&worker, build_name),
            url,
        ),
    ensures
        worker is Ok <==> options is Given,
        worker is Ok ==> url@ == (options->Given_0).url@ + "/builds/buildType:"@ + build_name@,
        worker matches Ok(worker) ==> worker.reported() == Set::<u64>::empty() && worker.memory()
            == (432_000u64, 10_000u64),
        worker matches Err(error) ==> error@ == TeamCityErrorView::Config(
            if options is Missing {
                "Missing configuration"@
            } else {
                "Invalid configuration"@
            },
        ),
{
}

/// A task must name its build with a text of its own.
pub proof fn law_task_names_its_build(
    worker: &TeamCity,
    task: &Task,
    build_name: &str,
    url: String,
    request: Result<String, WorkerError>,
)
    requires
        call_ensures(TeamCity::build_url, (worker, build_name), url),
        call_ensures(TeamCity::execute, (worker, task), request),
    ensures
        match json_view(task.options).member("build"@) {
            Some(JsonView::Text(name)) => request is Ok && (name == build_name@ ==> request->Ok_0@
                == url@),
            _ => request matches Err(error) && error@ == WorkerErrorView::TeamCity(
                TeamCityErrorView::MissingFieldError("build"@),
            ),
        },
{
}

/// Requests succeed with the statuses from 200 to 299; what goes wrong is told
/// whole.
pub proof fn law_build_request_faults(
    status: u16,
    text: &str,
    checked: Result<(), TeamCityError>,
    failure: TeamCityError,
)
    requires
        call_ensures(TeamCity::check_status, (status, text), checked),
        call_ensures(TeamCity::request_failure, (text,), failure),
    ensures
        checked is Ok <==> 200 <= status < 300,
        checked matches Err(error) ==> error@ == TeamCityErrorView::ApiRequest(
            "Status code: "@ + text@,
        ),
        failure@ == TeamCityErrorView::ApiRequest(text@),
{
}

/// A build is to be reported exactly if it has finished with a failure and is not
/// remembered, whatever else holds of it.
pub proof fn law_failed_build_is_to_be_reported(
    build: &BuildStatusResponse,
    remembered: bool,
    notify: bool,
)
    requires
        call_ensures(TeamCity::should_notify_unless, (build, remembered), notify),
    ensures
        notify <==> build.state@ == "finished"@ && build.status@ == "FAILURE"@ && !remembered,
{
}

/// Builds with the same state and status are judged alike.
pub proof fn law_like_builds_are_judged_alike(
    first: &BuildStatusResponse,
    second: &BuildStatusResponse,
    remembered: bool,
    first_notify: bool,
    second_notify: bool,
)
    requires
        first.state@ == second.state@,
        first.status@ == second.status@,
        call_ensures(TeamCity::should_notify_unless, (first, remembered), first_notify),
        call_ensures(TeamCity::should_notify_unless, (second, remembered), second_notify),
    ensures
        first_notify == second_notify,
{
}

/// A build that has finished with a failure and was not reported before is to be
/// reported. A build is reported only if it has finished with a failure and the
/// memory, asked for its identifier, does not know it.
pub proof fn law_unreported_failure_is_to_be_reported(
    worker: &TeamCity,
    build: &BuildStatusResponse,
    notify: bool,
)
    requires
        call_ensures(TeamCity::should_notify, (worker, build), notify),
    ensures
        build.state@ == "finished"@ && build.status@ == "FAILURE"@ && !worker.reported().contains(
            build.id,
        ) ==> notify,
        notify ==> build.state@ == "finished"@ && build.status@ == "FAILURE"@ && worker.answers(
            build.id,
            false,
        ),
        !notify ==> !(build.state@ == "finished"@ && build.status@ == "FAILURE"@)
            || worker.answers(build.id, true),
{
    let remembered = choose|remembered: bool| #[trigger]
        worker.answers(build.id, remembered) && notify == (build.state@ == "finished"@
            && build.status@ == "FAILURE"@ && !remembered);
    assert(worker.answers(build.id, remembered));
}

/// A notification needs a channel; its topic may be missing.
pub proof fn law_build_settings(
    worker: &TeamCity,
    task: &Task,
    channel: Option<Value>,
    topic: Option<Value>,
    config: Result<NotificationConfig, TeamCityError>,
)
    requires
        call_ensures(get_config_value, (task, "channel"), channel),
        call_ensures(get_config_value, (task, "topic"), topic),
        call_ensures(TeamCity::validate_task_config, (worker, task), config),
    ensures
        config is Ok <==> channel is Some,
        config matches Ok(config) ==> json_view(config.channel) == json_view(channel->0)
            && optional_view(config.topic) == optional_view(topic),
        config matches Err(error) ==> error@ == TeamCityErrorView::MissingFieldError("channel"@),
{
}

/// An action is for the task and says the message, the channel and the topic; a
/// topic that is missing is null.
pub proof fn law_build_action(
    worker: &TeamCity,
    task: &Task,
    message: String,
    config: NotificationConfig,
    action: Action,
)
    requires
        call_ensures(
            TeamCity::create_notification_action,
            (worker, task, message, config),
            action,
        ),
    ensures
        action.name@ == "zulip"@,
        action.task_id == task.id,
        says(
            action.options@,
            JsonView::Text(message@),
            json_view(config.channel),
            match config.topic {
                Some(topic) => json_view(topic),
                None => JsonView::Null,
            },
        ),
{
    lemma_notification_says(
        JsonView::Text(message@),
        json_view(config.channel),
        match config.topic {
            Some(topic) => json_view(topic),
            None => JsonView::Null,
        },
    );
}

/// A message is sent whole to the channel and the topic of its task. The reason
/// why there is no message comes first, and then the missing channel.
pub proof fn law_build_message_is_sent(
    worker: &TeamCity,
    message: Result<String, String>,
    task: &Task,
    channel: Option<Value>,
    topic: Option<Value>,
    action: Result<Action, WorkerError>,
)
    requires
        call_ensures(get_config_value, (task, "channel"), channel),
        call_ensures(get_config_value, (task, "topic"), topic),
        call_ensures(TeamCity::message_notification, (worker, message, task), action),
    ensures
        match (message, channel) {
            (Err(reason), _) => action matches Err(error) && error@ == WorkerErrorView::Other(
                reason@,
            ),
            (Ok(_), None) => action matches Err(error) && error@ == WorkerErrorView::TeamCity(
                TeamCityErrorView::MissingFieldError("channel"@),
            ),
            (Ok(message), Some(channel)) => action matches Ok(action) && action.name@ == "zulip"@
                && action.task_id == task.id && says(
                action.options@,
                JsonView::Text(message@),
                json_view(channel),
                match topic {
                    Some(topic) => json_view(topic),
                    None => JsonView::Null,
                },
            ),
        },
{
    if message is Ok && channel is Some {
        lemma_notification_says(
            JsonView::Text(message->Ok_0@),
            json_view(channel->0),
            match topic {
                Some(topic) => json_view(topic),
                None => JsonView::Null,
            },
        );
    }
}

/// The template for a build is filled with its name, its project's name, its
/// status in words and its address, and with nothing else; the message is sent as
/// any other.
pub proof fn law_build_is_filled_in(
    worker: &TeamCity,
    build: &BuildStatusResponse,
    template: &str,
    task: &Task,
    values: Map<Seq<char>, Seq<char>>,
    message: Result<String, String>,
    expected: Result<Action, WorkerError>,
    action: Result<Action, WorkerError>,
)
    requires
        forall|name: Seq<char>| #[trigger]
            values.contains_key(name) <==> name == "name"@ || name == "project_name"@ || name
                == "status"@ || name == "web_url"@,
        values["name"@] == build.build_type.name@,
        values["project_name"@] == build.build_type.project_name@,
        values["status"@] == build.status_text@,
        values["web_url"@] == build.web_url@,
        filled(template@, values) == match message {
            Ok(message) => Ok::<Seq<char>, Seq<char>>(message@),
            Err(reason) => Err(reason@),
        },
        call_ensures(TeamCity::message_notification, (worker, message, task), expected),
        call_ensures(TeamCity::build_notification, (worker, build, template, task), action),
    ensures
        match (expected, action) {
            (Ok(expected), Ok(action)) => action.name@ == expected.name@ && action.task_id
                == expected.task_id && action.options@ == expected.options@,
            (Err(expected), Err(error)) => error@ == expected@,
            _ => false,
        },
{
    assert(values =~= build_variables(*build)) by {
        reveal_strlit("name");
        reveal_strlit("project_name");
        reveal_strlit("status");
        reveal_strlit("web_url");
        assert("name"@[0] == 'n' && "project_name"@[0] == 'p');
        assert("status"@[0] == 's' && "web_url"@[0] == 'w');
    }
}

/// A failed build is reported with the template of its task, which must be a text
/// of its own.
pub proof fn law_report_uses_the_template(
    worker: &TeamCity,
    task: &Task,
    build: &BuildStatusResponse,
    template: &str,
    expected: Result<Action, WorkerError>,
    action: Result<Action, WorkerError>,
)
    requires
        call_ensures(TeamCity::build_notification, (worker, build, template, task), expected),
        call_ensures(TeamCity::report_failed, (worker, task, build), action),
    ensures
        match json_view(task.options).member("template"@) {
            Some(JsonView::Text(text)) => text == template@ ==> match (expected, action) {
                (Ok(expected), Ok(action)) => action.name@ == expected.name@ && action.task_id
                    == expected.task_id && action.options@ == expected.options@,
                (Err(expected), Err(error)) => error@ == expected@,
                _ => false,
            },
            _ => action matches Err(error) && error@ == WorkerErrorView::TeamCity(
                TeamCityErrorView::MissingFieldError("template"@),
            ),
        },
{
}

/// What is asked to be reported is reported and counts as reported, even where the
/// report fails; else nothing happens.
pub proof fn law_report_counts(
    worker: &mut TeamCity,
    notify: bool,
    task: &Task,
    build: &BuildStatusResponse,
    expected: Result<Action, WorkerError>,
    action: Result<Option<Action>, WorkerError>,
)
    requires
        call_ensures(TeamCity::report_failed, (old(worker), task, build), expected),
        call_ensures(TeamCity::report_if, (worker, notify, task, build), action),
    ensures
        final(worker).options() == old(worker).options(),
        final(worker).memory() == old(worker).memory(),
        forall|id: u64| #[trigger]
            final(worker).reported().contains(id) <==> old(worker).reported().contains(id) || (
            notify && id == build.id),
        !notify ==> action matches Ok(None),
        notify ==> match (expected, action) {
            (Ok(expected), Ok(Some(action))) => action.name@ == expected.name@ && action.task_id
                == expected.task_id && action.options@ == expected.options@,
            (Err(expected), Err(error)) => error@ == expected@,
            _ => false,
        },
{
}

/// A build that has finished with a failure counts as reported afterwards, and is
/// reported if it did not before. One that has not is neither reported nor counted.
pub proof fn law_failed_build_is_reported(
    worker: &mut TeamCity,
    task: &Task,
    build: &BuildStatusResponse,
    expected: Result<Action, WorkerError>,
    action: Result<Option<Action>, WorkerError>,
)
    requires
        call_ensures(TeamCity::report_failed, (old(worker), task, build), expected),
        call_ensures(TeamCity::report, (worker, task, build), action),
    ensures
        ({
            let failed = build.state@ == "finished"@ && build.status@ == "FAILURE"@;
            let same = match (expected, action) {
                (Ok(expected), Ok(Some(action))) => action.name@ == expected.name@
                    && action.task_id == expected.task_id && action.options@ == expected.options@,
                (Err(expected), Err(error)) => error@ == expected@,
                _ => false,
            };
            &&& final(worker).options() == old(worker).options()
            &&& final(worker).memory() == old(worker).memory()
            &&& forall|id: u64| #[trigger]
                final(worker).reported().contains(id) <==> old(worker).reported().contains(id) || (
                failed && id == build.id)
            &&& (!failed ==> (action matches Ok(None)))
            &&& failed && !old(worker).reported().contains(build.id) ==> same
            &&& (failed && !same ==> (action matches Ok(None)) && old(worker).answers(build.id, true))
            &&& failed && same ==> old(worker).answers(build.id, false)
        }),
{
    let remembered = choose|remembered: bool| #[trigger]
        old(worker).answers(build.id, remembered) && (action matches Ok(None) <==> !(build.state@
            == "finished"@ && build.status@ == "FAILURE"@ && !remembered));
    assert(old(worker).answers(build.id, remembered));
}

} // verus!
