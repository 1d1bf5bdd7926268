use serde_json::Value;
use team_bot::executor::actions::zulip::{
    status_succeeded, Msg, Options, PostMessageResponse, RequestError, ZulipClient, ZulipOutput,
};
use team_bot::executor::actions::{
    notification_options, Action, ActionConfig, ActionSource, ActionSystem,
};
use team_bot::executor::system::{Config, ExecutorSystem, Worker, WorkerSource};
use team_bot::executor::workers::gerrit::GerritConfig;
use team_bot::executor::workers::{teamcity, WorkerConfig, WorkerError, WorkerOptions};
use uuid::Uuid;

fn zulip_options(url: &str) -> Options {
    Options {
        url: url.to_owned(),
        login: "bot@zulip".to_owned(),
        token: "token".to_owned(),
        max_request: 3,
    }
}

fn action_source(name: &str, zulip: Option<Options>) -> ActionSource {
    ActionSource {
        config: ActionConfig { name: name.to_owned(), options: Value::Null },
        zulip,
    }
}

fn action(name: &str) -> Action {
    Action { name: name.to_owned(), task_id: Uuid::from_u128(1), options: "{}".to_owned() }
}

fn worker_source(name: &str) -> WorkerSource {
    WorkerSource {
        config: WorkerConfig { name: name.to_owned(), options: None },
        teamcity: WorkerOptions::Given(teamcity::Options { url: "https://ci".to_owned() }),
        gerrit: WorkerOptions::Given(GerritConfig {
            login: "bot".to_owned(),
            password: "word".to_owned(),
            url: "https://review".to_owned(),
        }),
    }
}

fn setup(workers: Vec<WorkerSource>, actions: Vec<ActionSource>) -> Result<ExecutorSystem, String> {
    ExecutorSystem::new(Config { num_workers: 4, workers, actions })
        .map_err(|error| error.message())
}

fn message(topic: Option<&str>) -> Msg {
    Msg {
        topic: topic.map(|topic| topic.to_owned()),
        channel: "dev".to_owned(),
        message: "hello".to_owned(),
    }
}

#[test]
fn last_zulip_source_counts() {
    let system = ActionSystem::new(vec![
        action_source("zulip", Some(zulip_options("first"))),
        action_source("mail", None),
        action_source("zulip", Some(zulip_options("second"))),
    ])
    .unwrap();
    let output: &ZulipOutput = system.process(&action("zulip")).unwrap();
    assert_eq!(output.client.options.url, "second");
    assert_eq!(output.client.options.max_request, 3);
}

#[test]
fn zulip_source_needs_its_options() {
    match ActionSystem::new(vec![
        action_source("zulip", Some(zulip_options("first"))),
        action_source("zulip", None),
    ]) {
        Err(error) => assert_eq!(
            error.message(),
            "Can't create zulip action. Err: Invalid Zulip configuration"
        ),
        Ok(system) => panic!("{:?}", system),
    }
}

#[test]
fn unknown_actions_are_not_supported() {
    let system = ActionSystem::new(vec![action_source("mail", None)]).unwrap();
    for name in ["mail", "zulip", ""] {
        match system.process(&action(name)) {
            Err(error) => {
                assert_eq!(error.message(), format!("Unsupported action type {}", name))
            }
            Ok(output) => panic!("{:?}", output),
        }
    }
}

#[test]
fn notification_has_three_members() {
    let options = notification_options(
        Value::String("m".to_owned()),
        Value::Null,
        Value::String("t".to_owned()),
    );
    assert_eq!(options, "{\"channel\":null,\"message\":\"m\",\"topic\":\"t\"}");
}

#[test]
fn notification_is_read_back() {
    let text = |text: &str| Value::String(text.to_owned());
    for (message, channel) in [("m", "c"), ("say \"hi\"\n\u{7}\u{1f600}\\", "\u{e9}"), ("", "")] {
        let options = notification_options(text(message), text(channel), text("t"));
        let msg = Msg::read_written(&options).unwrap();
        assert_eq!(msg.message, message);
        assert_eq!(msg.channel, channel);
        assert_eq!(msg.topic.as_deref(), Some("t"));
        let options = notification_options(text(message), text(channel), Value::Null);
        assert_eq!(Msg::read_written(&options).unwrap().topic, None);
    }
}

#[test]
fn other_options_are_not_read() {
    for options in [
        "",
        "null",
        "{\"channel\":\"c\"}",
        "{\"channel\":1,\"message\":\"m\"}",
        "{\"channel\":\"c\",\"message\":\"m\",\"topic\":1}",
        "{\"channel\":\"a\",\"channel\":\"b\",\"message\":\"m\"}",
        "{\"channel\": \"c\", \"message\": \"m\"}",
        "[null,\"c\",\"m\"]",
    ] {
        assert!(Msg::read_written(options).is_none(), "{}", options);
    }
    let msg = Msg::read_written("{\"channel\":\"c\",\"message\":\"m\",\"x\":[1]}").unwrap();
    assert_eq!((msg.topic, msg.channel.as_str(), msg.message.as_str()), (None, "c", "m"));
}

#[test]
fn message_is_taken_from_a_value() {
    let value = |text: &str| serde_json::from_str::<Value>(text).unwrap();
    let msg = Msg::of_value(&value("{\"topic\": \"t\", \"message\": \"m\", \"channel\": \"c\"}"));
    assert_eq!(msg.unwrap().topic.as_deref(), Some("t"));
    assert!(Msg::of_value(&value("{\"topic\": true, \"message\": \"m\", \"channel\": \"c\"}")).is_none());
    assert!(Msg::of_value(&value("\"m\"")).is_none());
}

#[test]
fn statuses_of_success() {
    for status in 0..1000 {
        assert_eq!(status_succeeded(status), (200..300).contains(&status));
    }
}

#[test]
fn message_becomes_a_query() {
    let pair = |name: &str, value: &str| (name.to_owned(), value.to_owned());
    assert_eq!(
        ZulipClient::query(&message(Some("bot"))),
        vec![
            pair("type", "stream"),
            pair("to", "dev"),
            pair("topic", "bot"),
            pair("content", "hello"),
        ]
    );
    assert_eq!(ZulipClient::query(&message(None))[2], pair("topic", ""));
}

#[test]
fn answer_to_a_message_decides() {
    let answer = |result: &str| PostMessageResponse {
        id: 1,
        msg: "too long".to_owned(),
        result: result.to_owned(),
    };
    assert!(ZulipClient::check_response(answer("success")).is_ok());
    match ZulipClient::check_response(answer("error")) {
        Err(error) => assert_eq!(error.message(), "Message submission failed: too long"),
        Ok(()) => panic!("no success"),
    }
    assert!(ZulipClient::check_status(200).is_ok());
    assert!(ZulipClient::check_status(299).is_ok());
    for status in [199, 300, 401] {
        match ZulipClient::check_status(status) {
            Err(error) => assert_eq!(
                error.message(),
                format!("Request returned an invalid status code: {}", status)
            ),
            Ok(()) => panic!("no success"),
        }
    }
}

#[test]
fn zulip_needs_its_options() {
    assert_eq!(ZulipClient::new(None).unwrap_err(), "Invalid Zulip configuration");
    assert_eq!(ZulipOutput::new(None).unwrap_err(), "Invalid Zulip configuration");
    let client = ZulipClient::new(Some(zulip_options("https://chat"))).unwrap();
    assert_eq!(client.options.url, "https://chat");
}

#[test]
fn request_error_messages() {
    let text = || "x".to_owned();
    let cases = vec![
        (RequestError::QueueError, "Failed to submit chat message: Queue is full"),
        (RequestError::StatusCodeError(418), "Request returned an invalid status code: 418"),
        (RequestError::ParseError(text()), "Failed to parse response: x"),
        (RequestError::ReqwestError(text()), "Request failed: x"),
        (RequestError::SendError(text()), "Message submission failed: x"),
        (RequestError::RecvError(text()), "Failed to receive response: x"),
        (RequestError::SemaphoreError(text()), "Failed to acquire request lock: x"),
        (RequestError::MaxRetriesExceeded, "Max retries exceeded"),
    ];
    for (error, message) in cases {
        assert_eq!(error.message(), message);
    }
}

#[test]
fn workers_stand_under_their_names() {
    let system = setup(
        vec![
            worker_source("notify"),
            worker_source("mail"),
            worker_source("teamcity"),
            worker_source("gerrit"),
            worker_source("notify"),
        ],
        vec![action_source("zulip", Some(zulip_options("https://chat")))],
    )
    .unwrap_or_else(|error| panic!("{}", error));
    assert_eq!(system.num_workers, 4);
    assert!(matches!(system.workers.get("notify"), Some(Worker::Notifier(_))));
    assert!(matches!(system.workers.get("teamcity"), Some(Worker::TeamCity(_))));
    assert!(matches!(
        system.workers.get("gerrit"),
        Some(Worker::Gerrit(gerrit)) if gerrit.config.url == "https://review"
    ));
    assert!(system.workers.get("mail").is_none());
    assert_eq!(system.workers.entries().len(), 3);
    assert!(system.action_system.process(&action("zulip")).is_ok());
}

#[test]
fn workers_need_their_options() {
    let mut missing = worker_source("teamcity");
    missing.teamcity = WorkerOptions::Missing;
    assert_eq!(
        setup(vec![missing], vec![]).err(),
        Some(
            "Can't create teamcity worker. Err: Configuration error: Missing configuration"
                .to_owned()
        )
    );
    let mut invalid = worker_source("gerrit");
    invalid.gerrit = WorkerOptions::Invalid;
    let mut later = worker_source("teamcity");
    later.teamcity = WorkerOptions::Invalid;
    assert_eq!(
        setup(vec![worker_source("notify"), invalid, later], vec![]).err(),
        Some(
            "Can't create gerrit worker. Err: Configuration error: Invalid configuration"
                .to_owned()
        )
    );
}

#[test]
fn options_of_other_workers_do_not_matter() {
    let mut notify = worker_source("notify");
    notify.teamcity = WorkerOptions::Missing;
    notify.gerrit = WorkerOptions::Invalid;
    assert!(setup(vec![notify], vec![]).is_ok());
}

#[test]
fn actions_are_set_up_before_workers() {
    let mut missing = worker_source("teamcity");
    missing.teamcity = WorkerOptions::Missing;
    assert_eq!(
        setup(vec![missing], vec![action_source("zulip", None)]).err(),
        Some("Can't create zulip action. Err: Invalid Zulip configuration".to_owned())
    );
}

#[test]
fn worker_error_without_a_kind() {
    assert_eq!(WorkerError::Other("x".to_owned()).message(), "x");
}
