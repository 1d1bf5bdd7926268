use serde_json::Value;
use team_bot::entity::project::ProjectRow;
use team_bot::entity::task::Task;
use team_bot::entity::time::UtcTime;
use team_bot::executor::workers::gerrit::{
    Gerrit, GerritConfig, GerritError, Label, Labels, Review, User,
};
use team_bot::executor::workers::{WorkerError, WorkerOptions};
use uuid::Uuid;

fn text(text: &str) -> Value {
    Value::String(text.to_owned())
}

fn object(members: &[(&str, Value)]) -> Value {
    Value::Object(members.iter().map(|(name, value)| (name.to_string(), value.clone())).collect())
}

fn task(task_type: &str, options: Value, project_options: Value) -> Task {
    let now = UtcTime { seconds: 1_700_000_000, nanos: 0 };
    Task {
        id: Uuid::from_u128(17),
        task_type: task_type.to_owned(),
        status: "new".to_owned(),
        project: ProjectRow {
            id: Uuid::from_u128(23),
            name: "name".to_owned(),
            code: "code".to_owned(),
            sync_with_exchange: 0,
            owner_id: Uuid::from_u128(29),
            created_at: now,
            updated_at: now,
            options: project_options,
        },
        retries: 0,
        name: "task".to_owned(),
        external_id: None,
        external_modified_at: None,
        schedule: None,
        start_at: 0,
        options,
        created_at: now,
        updated_at: now,
    }
}

fn gerrit() -> Gerrit {
    Gerrit::new(WorkerOptions::Given(GerritConfig {
        login: "bot".to_owned(),
        password: "word".to_owned(),
        url: "https://review".to_owned(),
    }))
    .unwrap()
}

fn label() -> Label {
    Label { rejected: None, approved: None, disliked: None, recommended: None }
}

fn review(subject: &str, number: i32) -> Review {
    Review {
        id: "id".to_owned(),
        project: "other".to_owned(),
        branch: "master".to_owned(),
        change_id: "I1".to_owned(),
        subject: subject.to_owned(),
        status: "NEW".to_owned(),
        created: String::new(),
        updated: String::new(),
        submit_type: "MERGE".to_owned(),
        insertions: 12,
        deletions: -3,
        unresolved_comment_count: 0,
        owner: User {
            name: "name".to_owned(),
            email: "email".to_owned(),
            username: "username".to_owned(),
        },
        labels: Labels { verified: label(), code_review: label() },
        number,
    }
}

fn options() -> Vec<(&'static str, Value)> {
    vec![
        ("project", text("bot")),
        ("query", text("status:open")),
        ("template", text("Reviews of {project}:\n")),
        ("review_template", text("{subject} +{insertions} {deletions} {url}/{number} {project}\n")),
        ("channel", text("dev")),
        ("topic", text("reviews")),
    ]
}

fn without(field: &str) -> Value {
    let members: Vec<(&str, Value)> =
        options().into_iter().filter(|(name, _)| *name != field).collect();
    object(&members)
}

#[test]
fn gerrit_options_are_needed() {
    match Gerrit::new(WorkerOptions::Missing) {
        Err(error) => assert_eq!(error.message(), "Configuration error: Missing configuration"),
        Ok(worker) => panic!("{:?}", worker),
    }
    match Gerrit::new(WorkerOptions::Invalid) {
        Err(error) => assert_eq!(error.message(), "Configuration error: Invalid configuration"),
        Ok(worker) => panic!("{:?}", worker),
    }
}

#[test]
fn execution_asks_for_the_reviews() {
    let (config, url) = gerrit().execute(&task("gerrit", object(&options()), Value::Null)).unwrap();
    assert_eq!(
        url,
        "https://review/a/changes/?q=status:open project:bot&o=DETAILED_ACCOUNTS&o=LABELS"
    );
    assert_eq!(config.project, "bot");
    assert_eq!(config.query, "status:open");
    assert_eq!(config.template, "Reviews of {project}:\n");
}

#[test]
fn missing_fields_are_named_in_order() {
    for field in ["project", "query", "template", "review_template"] {
        match gerrit().execute(&task("gerrit", without(field), Value::Null)) {
            Err(error) => {
                assert_eq!(error.message(), format!("Missing required field: {}", field));
            }
            Ok(request) => panic!("{:?}", request),
        }
    }
    assert!(matches!(
        gerrit().validate_task_config(&task("gerrit", Value::Null, Value::Null)),
        Err(GerritError::MissingFieldError(field)) if field == "project"
    ));
}

#[test]
fn fields_must_be_texts_of_the_task_itself() {
    let project = object(&[("gerrit", object(&options()))]);
    assert!(gerrit().execute(&task("gerrit", Value::Null, project)).is_err());
    let mut members = options();
    members[1].1 = Value::Bool(true);
    assert!(matches!(
        gerrit().validate_task_config(&task("gerrit", object(&members), Value::Null)),
        Err(GerritError::MissingFieldError(field)) if field == "query"
    ));
}

#[test]
fn response_prefix_is_removed() {
    assert_eq!(Gerrit::review_data(")]}'\n[]").unwrap(), "\n[]");
    assert_eq!(Gerrit::review_data(")]}'Unauthorized").unwrap(), "Unauthorized");
    assert_eq!(Gerrit::review_data(")]}'").unwrap(), "");
}

#[test]
fn refused_and_malformed_responses() {
    match Gerrit::review_data("Unauthorized") {
        Err(error) => {
            assert_eq!(error.message(), "Authentication failed: Invalid credentials")
        }
        Ok(data) => panic!("{}", data),
    }
    match Gerrit::review_data("[]") {
        Err(error) => assert_eq!(error.message(), "Invalid API response: Invalid response format"),
        Ok(data) => panic!("{}", data),
    }
}

#[test]
fn status_of_a_review_request_decides() {
    assert!(Gerrit::check_status(200, "200 OK").is_ok());
    assert!(Gerrit::check_status(299, "299").is_ok());
    for (status, text) in [(199, "199"), (300, "300 Multiple Choices"), (404, "404 Not Found")] {
        match Gerrit::check_status(status, text) {
            Err(error) => {
                assert_eq!(error.message(), format!("Request failed with status: {}", text))
            }
            Ok(()) => panic!("{}", status),
        }
    }
}

#[test]
fn failure_messages() {
    assert_eq!(Gerrit::fetch_failure("x").message(), "Failed to fetch reviews: x");
    assert_eq!(Gerrit::parse_failure("x").message(), "Failed to parse response: x");
    assert_eq!(Gerrit::send_failure("x").message(), "Failed to send notification: x");
}

#[test]
fn review_is_put_into_words() {
    let text = gerrit()
        .format_review_message(
            &review("Fix it", 42),
            "{subject}|{insertions}|{deletions}|{url}|{number}|{project}",
            "bot",
        )
        .unwrap();
    assert_eq!(text, "Fix it|12|-3|https://review|42|bot");
}

#[test]
fn unknown_variable_in_a_review_template() {
    match gerrit().format_review_message(&review("Fix it", 42), "{branch}", "bot") {
        Err(error) => assert!(error.message().starts_with("Failed to format message: ")),
        Ok(text) => panic!("{}", text),
    }
}

#[test]
fn reviews_are_reported_in_order() {
    let reviews = vec![review("A", 1), review("B", 2)];
    let message =
        gerrit().build_message(&reviews, "{project}:", " {subject}{number}", "bot").unwrap();
    assert_eq!(message, "bot: A1 B2");
    assert_eq!(gerrit().build_message(&vec![], "{project}:", "{", "bot").unwrap(), "bot:");
}

#[test]
fn message_of_joined_reviews() {
    let build = |reviews: &[i32], template: &str| {
        let reviews = reviews.iter().map(|number| review("R", *number)).collect();
        gerrit().build_message(&reviews, template, "{subject}{number};", "core").unwrap()
    };
    let first = build(&[1, 2], "Reviews for {project}:");
    let second = build(&[3], "");
    assert_eq!(second, "R3;");
    assert_eq!(build(&[1, 2, 3], "Reviews for {project}:"), format!("{}{}", first, second));
    assert_eq!(build(&[], "Reviews for {project}:"), "Reviews for core:");
    assert_eq!(build(&[], "no variables"), "no variables");
}

#[test]
fn texts_are_judged_in_order() {
    assert_eq!(Gerrit::review_message(Ok("r".to_owned())).unwrap(), "r");
    assert_eq!(
        Gerrit::review_message(Err("x".to_owned())).unwrap_err().message(),
        "Failed to format message: x"
    );
    let fault = |text: &str| Err(WorkerError::Other(text.to_owned()));
    let join = |head: Result<&str, &str>, texts: Vec<Result<String, WorkerError>>| {
        Gerrit::join_message(
            head.map(|text| text.to_owned()).map_err(|text| text.to_owned()),
            texts,
        )
        .map_err(|error| error.message())
    };
    assert_eq!(join(Ok("h"), vec![Ok("a".to_owned()), Ok("b".to_owned())]), Ok("hab".to_owned()));
    assert_eq!(
        join(Ok("h"), vec![Ok("a".to_owned()), fault("first"), fault("second")]),
        Err("first".to_owned())
    );
    assert_eq!(join(Err("head"), vec![fault("first")]), Err("head".to_owned()));
}

#[test]
fn unknown_variable_in_the_head_template() {
    match gerrit().build_message(&vec![review("A", 1)], "{subject}", "{subject}", "bot") {
        Err(WorkerError::Other(reason)) => assert!(!reason.starts_with("Failed to format")),
        other => panic!("{:?}", other),
    }
}

#[test]
fn reviews_are_sent_to_the_channel() {
    let task = task("gerrit", object(&options()), Value::Null);
    let (config, _) = gerrit().execute(&task).unwrap();
    let action = gerrit().report(&task, &config, &vec![review("Fix it", 42)]).unwrap().unwrap();
    assert_eq!(action.name, "zulip");
    assert_eq!(action.task_id, task.id);
    assert_eq!(
        action.options,
        "{\"channel\":\"dev\",\"message\":\"Reviews of bot:\\nFix it +12 -3 https://review/42 \
         bot\\n\",\"topic\":\"reviews\"}"
    );
}

#[test]
fn without_reviews_there_is_nothing_to_send() {
    let task = task("gerrit", object(&options()), Value::Null);
    let (config, _) = gerrit().execute(&task).unwrap();
    assert!(gerrit().report(&task, &config, &vec![]).unwrap().is_none());
}

#[test]
fn delivery_settings_are_needed() {
    for field in ["channel", "topic"] {
        let task = task("gerrit", without(field), Value::Null);
        let (config, _) = gerrit().execute(&task).unwrap();
        match gerrit().report(&task, &config, &vec![review("A", 1)]) {
            Err(error) => {
                assert_eq!(error.message(), format!("Missing required field: {}", field))
            }
            Ok(action) => panic!("{:?}", action),
        }
    }
}

#[test]
fn delivery_settings_of_the_project_count() {
    let members = vec![("channel", text("shared")), ("topic", text("all"))];
    let task = task(
        "gerrit",
        object(&options()[..4]),
        object(&[("gerrit", object(&members))]),
    );
    let action = Gerrit::notification_action(&task, "m".to_owned()).unwrap();
    assert_eq!(action.options, "{\"channel\":\"shared\",\"message\":\"m\",\"topic\":\"all\"}");
}
