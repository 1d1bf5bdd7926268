use serde_json::Value;
use team_bot::entity::project::ProjectRow;
use team_bot::entity::task::Task;
use team_bot::entity::time::UtcTime;
use team_bot::executor::workers::notifier::{Notifier, NotifierError};
use team_bot::executor::workers::settings::get_config_value;
use uuid::Uuid;

fn text(text: &str) -> Value {
    Value::String(text.to_owned())
}

fn object(members: &[(&str, Value)]) -> Value {
    Value::Object(members.iter().map(|(name, value)| (name.to_string(), value.clone())).collect())
}

fn task(task_type: &str, options: Value, project_options: Value) -> Task {
    let now = UtcTime { seconds: 1_700_000_000, nanos: 0 };
    Task {
        id: Uuid::from_u128(17),
        task_type: task_type.to_owned(),
        status: "new".to_owned(),
        project: ProjectRow {
            id: Uuid::from_u128(23),
            name: "name".to_owned(),
            code: "code".to_owned(),
            sync_with_exchange: 0,
            owner_id: Uuid::from_u128(29),
            created_at: now,
            updated_at: now,
            options: project_options,
        },
        retries: 0,
        name: "task".to_owned(),
        external_id: None,
        external_modified_at: None,
        schedule: None,
        start_at: 0,
        options,
        created_at: now,
        updated_at: now,
    }
}

#[test]
fn test_get_config_value() {
    let mut task = task(
        "notification",
        object(&[("text", text("task specific text"))]),
        object(&[("notification", object(&[("channel", text("project channel"))]))]),
    );
    task.id = Uuid::new_v4();
    task.project.id = Uuid::new_v4();
    task.project.owner_id = Uuid::new_v4();

    assert_eq!(get_config_value(&task, "text"), Some(text("task specific text")));
    assert_eq!(get_config_value(&task, "channel"), Some(text("project channel")));
    assert_eq!(get_config_value(&task, "nonexistent"), None);
}

#[test]
fn own_setting_wins() {
    let task = task(
        "notify",
        object(&[("channel", text("own")), ("topic", Value::Null)]),
        object(&[("notify", object(&[("channel", text("shared")), ("topic", text("shared"))]))]),
    );
    assert_eq!(get_config_value(&task, "channel"), Some(text("own")));
    assert_eq!(get_config_value(&task, "topic"), Some(Value::Null));
}

#[test]
fn settings_for_other_types_do_not_matter() {
    let task = task(
        "notify",
        Value::Null,
        object(&[
            ("teamcity", object(&[("channel", text("builds"))])),
            ("channel", text("top")),
        ]),
    );
    assert_eq!(get_config_value(&task, "channel"), None);
}

#[test]
fn missing_settings_are_named_in_order() {
    let notifier = Notifier::new(None).unwrap();
    let cases = vec![
        (object(&[]), "text"),
        (object(&[("channel", text("c"))]), "text"),
        (object(&[("text", text("t"))]), "channel"),
        (object(&[("text", text("t")), ("channel", text("c"))]), "topic"),
    ];
    for (options, field) in cases {
        let task = task("notify", options, Value::Null);
        match notifier.execute(&task) {
            Err(error) => {
                assert!(matches!(&error, NotifierError::MissingFieldError(name) if name == field));
                assert_eq!(error.message(), format!("Missing required field: {}", field));
            }
            Ok(action) => panic!("{:?}", action),
        }
        assert!(notifier.validate_task_config(&task).is_err());
    }
}

#[test]
fn notification_is_an_action_with_json_options() {
    let notifier = Notifier::new(Some(text("ignored"))).unwrap();
    let task = task(
        "notify",
        object(&[("text", text("say \"hi\""))]),
        object(&[("notify", object(&[("channel", text("general")), ("topic", text("bot"))]))]),
    );
    let action = notifier.execute(&task).unwrap();
    assert_eq!(action.name, "zulip");
    assert_eq!(action.task_id, task.id);
    assert_eq!(
        action.options,
        "{\"channel\":\"general\",\"message\":\"say \\\"hi\\\"\",\"topic\":\"bot\"}"
    );
    let parsed: Value = serde_json::from_str(&action.options).unwrap();
    assert_eq!(parsed.get("message"), Some(&text("say \"hi\"")));
}

#[test]
fn settings_need_not_be_texts() {
    let notifier = Notifier::new(None).unwrap();
    let options = object(&[
        ("text", Value::Bool(true)),
        ("channel", Value::Array(vec![Value::Null])),
        ("topic", Value::from(7)),
    ]);
    let config = notifier.validate_task_config(&task("notify", options, Value::Null)).unwrap();
    let action = notifier.create_notification_action(Uuid::from_u128(5), config);
    assert_eq!(action.task_id, Uuid::from_u128(5));
    assert_eq!(action.options, "{\"channel\":[null],\"message\":true,\"topic\":7}");
}

#[test]
fn configuration_error_message() {
    assert_eq!(
        NotifierError::ConfigError("x".to_owned()).message(),
        "Notifier configuration error: x"
    );
}
