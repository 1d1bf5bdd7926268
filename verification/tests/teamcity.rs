use serde_json::Value;
use team_bot::entity::project::ProjectRow;
use team_bot::entity::task::Task;
use team_bot::entity::time::UtcTime;
use team_bot::executor::workers::teamcity::{
    BuildStatusResponse, BuildType, Options, TeamCity, TestOccurrences,
};
use team_bot::executor::workers::WorkerOptions;
use uuid::Uuid;

fn text(text: &str) -> Value {
    Value::String(text.to_owned())
}

fn object(members: &[(&str, Value)]) -> Value {
    Value::Object(members.iter().map(|(name, value)| (name.to_string(), value.clone())).collect())
}

fn task(task_type: &str, options: Value, project_options: Value) -> Task {
    let now = UtcTime { seconds: 1_700_000_000, nanos: 0 };
    Task {
        id: Uuid::from_u128(17),
        task_type: task_type.to_owned(),
        status: "new".to_owned(),
        project: ProjectRow {
            id: Uuid::from_u128(23),
            name: "name".to_owned(),
            code: "code".to_owned(),
            sync_with_exchange: 0,
            owner_id: Uuid::from_u128(29),
            created_at: now,
            updated_at: now,
            options: project_options,
        },
        retries: 0,
        name: "task".to_owned(),
        external_id: None,
        external_modified_at: None,
        schedule: None,
        start_at: 0,
        options,
        created_at: now,
        updated_at: now,
    }
}

fn teamcity() -> TeamCity {
    match TeamCity::new(WorkerOptions::Given(Options { url: "https://ci/app/rest".to_owned() })) {
        Ok(worker) => worker,
        Err(error) => panic!("{}", error.message()),
    }
}

fn build(id: u64, state: &str, status: &str) -> BuildStatusResponse {
    BuildStatusResponse {
        id,
        state: state.to_owned(),
        status: status.to_owned(),
        build_type: BuildType { name: "Tests".to_owned(), project_name: "Bot".to_owned() },
        status_text: "Tests failed: 1".to_owned(),
        web_url: "https://ci/1".to_owned(),
        finish_date: "20240310T101500+0300".to_owned(),
        test_occurrences: Some(TestOccurrences { passed: Some(9), failed: Some(1) }),
    }
}

fn options() -> Vec<(&'static str, Value)> {
    vec![
        ("build", text("Bot_Tests")),
        ("template", text("{project_name}/{name}: {status} {web_url}")),
        ("channel", text("dev")),
    ]
}

#[test]
fn teamcity_options_are_needed() {
    match TeamCity::new(WorkerOptions::Missing) {
        Err(error) => assert_eq!(error.message(), "Configuration error: Missing configuration"),
        Ok(_) => panic!("a worker without options"),
    }
    match TeamCity::new(WorkerOptions::Invalid) {
        Err(error) => assert_eq!(error.message(), "Configuration error: Invalid configuration"),
        Ok(_) => panic!("a worker without options"),
    }
}

#[test]
fn execution_asks_for_the_build() {
    let task = task("teamcity", object(&options()), Value::Null);
    assert_eq!(
        teamcity().execute(&task).unwrap(),
        "https://ci/app/rest/builds/buildType:Bot_Tests"
    );
}

#[test]
fn the_build_must_be_named() {
    for options in [object(&[]), object(&[("build", Value::from(1))]), Value::Null] {
        match teamcity().execute(&task("teamcity", options, Value::Null)) {
            Err(error) => assert_eq!(error.message(), "Missing required field: build"),
            Ok(url) => panic!("{}", url),
        }
    }
}

#[test]
fn status_of_a_build_request_decides() {
    assert!(TeamCity::check_status(200, "200 OK").is_ok());
    assert!(TeamCity::check_status(299, "299").is_ok());
    for (status, text) in [(199, "199"), (300, "300"), (500, "500 Internal Server Error")] {
        match TeamCity::check_status(status, text) {
            Err(error) => {
                assert_eq!(error.message(), format!("API request failed: Status code: {}", text))
            }
            Ok(()) => panic!("{}", status),
        }
    }
    assert_eq!(TeamCity::request_failure("x").message(), "API request failed: x");
}

#[test]
fn only_failed_builds_are_reported() {
    for remembered in [false, true] {
        for (state, status) in [
            ("finished", "SUCCESS"),
            ("running", "FAILURE"),
            ("Finished", "FAILURE"),
            ("finished", "failure"),
        ] {
            assert!(!TeamCity::should_notify_unless(&build(1, state, status), remembered));
        }
        assert_eq!(
            TeamCity::should_notify_unless(&build(1, "finished", "FAILURE"), remembered),
            !remembered
        );
    }
}

#[test]
fn failed_build_is_reported_once() {
    let task = task("teamcity", object(&options()), Value::Null);
    let mut worker = teamcity();
    let failed = build(7, "finished", "FAILURE");
    assert!(worker.should_notify(&failed));
    let action = worker.report(&task, &failed).unwrap().unwrap();
    assert_eq!(action.name, "zulip");
    assert_eq!(action.task_id, task.id);
    assert_eq!(
        action.options,
        "{\"channel\":\"dev\",\"message\":\"Bot/Tests: Tests failed: 1 https://ci/1\",\
         \"topic\":null}"
    );
    assert!(!worker.should_notify(&failed));
    assert!(worker.report(&task, &failed).unwrap().is_none());
    assert!(worker.report(&task, &build(8, "finished", "FAILURE")).unwrap().is_some());
}

#[test]
fn other_builds_are_not_remembered() {
    let task = task("teamcity", object(&options()), Value::Null);
    let mut worker = teamcity();
    assert!(worker.report(&task, &build(7, "running", "FAILURE")).unwrap().is_none());
    assert!(worker.report(&task, &build(7, "finished", "FAILURE")).unwrap().is_some());
}

#[test]
fn build_counts_as_reported_where_the_report_fails() {
    let task = task("teamcity", object(&[("build", text("b"))]), Value::Null);
    let mut worker = teamcity();
    let failed = build(7, "finished", "FAILURE");
    match worker.report(&task, &failed) {
        Err(error) => assert_eq!(error.message(), "Missing required field: template"),
        Ok(action) => panic!("{:?}", action),
    }
    assert!(worker.report(&task, &failed).unwrap().is_none());
}

#[test]
fn report_is_made_only_if_wanted() {
    let task = task("teamcity", object(&options()), Value::Null);
    let mut worker = teamcity();
    let failed = build(7, "finished", "FAILURE");
    assert!(worker.report_if(false, &task, &failed).unwrap().is_none());
    assert!(worker.should_notify(&failed));
    assert!(worker.report_if(true, &task, &failed).unwrap().is_some());
    assert!(!worker.should_notify(&failed));
}

#[test]
fn the_channel_must_be_set() {
    let task = task("teamcity", object(&options()[..2]), Value::Null);
    match teamcity().report_failed(&task, &build(7, "finished", "FAILURE")) {
        Err(error) => assert_eq!(error.message(), "Missing required field: channel"),
        Ok(action) => panic!("{:?}", action),
    }
}

#[test]
fn message_is_sent_where_there_is_one() {
    let task_with = |options: &[(&str, Value)]| task("teamcity", object(options), Value::Null);
    let action = teamcity()
        .message_notification(Ok("m".to_owned()), &task_with(&options()))
        .unwrap();
    assert_eq!(action.options, "{\"channel\":\"dev\",\"message\":\"m\",\"topic\":null}");
    match teamcity().message_notification(Err("x".to_owned()), &task_with(&[])) {
        Err(error) => assert_eq!(error.message(), "x"),
        Ok(action) => panic!("{:?}", action),
    }
    match teamcity().message_notification(Ok("m".to_owned()), &task_with(&[])) {
        Err(error) => assert_eq!(error.message(), "Missing required field: channel"),
        Ok(action) => panic!("{:?}", action),
    }
}

#[test]
fn plain_template_is_its_own_text() {
    let task = task("teamcity", object(&options()), Value::Null);
    let action =
        teamcity().build_notification(&build(7, "finished", "FAILURE"), "It broke.", &task).unwrap();
    assert_eq!(action.options, "{\"channel\":\"dev\",\"message\":\"It broke.\",\"topic\":null}");
}

#[test]
fn unknown_variable_in_the_template() {
    let task = task("teamcity", object(&options()), Value::Null);
    assert!(teamcity().build_notification(&build(7, "finished", "FAILURE"), "{x}", &task).is_err());
    let action =
        teamcity().build_notification(&build(7, "finished", "FAILURE"), "{{x}}", &task).unwrap();
    assert_eq!(action.options, "{\"channel\":\"dev\",\"message\":\"{x}\",\"topic\":null}");
}

#[test]
fn topic_of_the_project_counts() {
    let project = object(&[("teamcity", object(&[("topic", text("builds"))]))]);
    let task = task("teamcity", object(&options()), project);
    let action =
        teamcity().report_failed(&task, &build(7, "finished", "FAILURE")).unwrap();
    assert!(action.options.ends_with("\"topic\":\"builds\"}"), "{}", action.options);
}
