use serde_json::Value;
use team_bot::entity::project::ProjectRow;
use team_bot::entity::time::UtcTime;
use team_bot::error::ServiceError;
use team_bot::jobs::exchange::calendar::{calendar_step, CalendarEvent, CalendarStep};
use team_bot::jobs::exchange::client::{
    response_content, response_text, take_response, ExchangeClient, ResponseCollector, Setting,
};
use team_bot::jobs::exchange::processor::{index_projects, EventProcessor};
use team_bot::jobs::exchange::time::{
    parse_event_time, parse_modification_time, read_time, resolved_time,
};
use team_bot::jobs::exchange::{
    Credentials, EventBody, EventDate, EventLocation, ExchangeEvent, ExchangeResponse,
};
use team_bot::jobs::options::{parse_options, read_option};
use uuid::Uuid;

fn date(date_time: &str, timezone: &str) -> EventDate {
    EventDate { date_time: date_time.to_owned(), timezone: timezone.to_owned() }
}

fn event(subject: &str, content: &str) -> ExchangeEvent {
    ExchangeEvent {
        id: format!("id of {}", subject),
        subject: subject.to_owned(),
        location: EventLocation { display_name: "room".to_owned() },
        start: date("2024-03-10T10:00:00.0000000", "Europe/Moscow"),
        last_modified: "2024-03-09T12:00:00.5+03:00".to_owned(),
        body: EventBody { content: content.to_owned(), content_type: "text".to_owned() },
    }
}

fn project(id: u128, code: &str) -> ProjectRow {
    let now = UtcTime { seconds: 0, nanos: 0 };
    ProjectRow {
        id: Uuid::from_u128(id),
        name: format!("Project {}", code),
        code: code.to_owned(),
        sync_with_exchange: 1,
        owner_id: Uuid::from_u128(1),
        created_at: now,
        updated_at: now,
        options: Value::Null,
    }
}

fn processor() -> EventProcessor {
    match EventProcessor::new() {
        Ok(processor) => processor,
        Err(error) => panic!("{}", error.message()),
    }
}

/// The options in a text, by their names.
fn options(raw: &str) -> Vec<(String, String)> {
    let mut options = parse_options(raw).unwrap().into_entries();
    options.sort();
    options
}

fn pairs(pairs: &[(&str, &str)]) -> Vec<(String, String)> {
    pairs.iter().map(|(name, value)| (name.to_string(), value.to_string())).collect()
}

fn block(content: &str) -> Result<Vec<(String, String)>, String> {
    match processor().parse_event_options(&event("e", content)) {
        Ok(options) => {
            let mut options = options.into_entries();
            options.sort();
            Ok(options)
        }
        Err(error) => Err(error.message()),
    }
}

fn single(event: &ExchangeEvent, projects: Vec<ProjectRow>) -> Result<i32, String> {
    match processor().process_single_event(event, &index_projects(projects)) {
        Ok(params) => Ok(params.start_at),
        Err(error) => Err(error.message()),
    }
}

const BLOCK: &str = "[PLATFORM_BOT]\nProject: bot\ntext: hello\n[PLATFORM_BOT]";

#[test]
fn options_are_read_line_by_line() {
    assert_eq!(
        options("Project: bot\r\n  TEXT :  hello world \n\nchannel: dev"),
        pairs(&[("channel", "dev"), ("project", "bot"), ("text", "hello world")])
    );
    assert_eq!(options(""), vec![]);
    assert_eq!(options("\n\n"), vec![]);
}

#[test]
fn names_are_put_into_lower_case() {
    assert_eq!(options("\u{c4}B\u{3a3}: X"), pairs(&[("\u{e4}b\u{3c2}", "X")]));
}

#[test]
fn later_line_counts() {
    assert_eq!(options("a: 1\nA: 2\n a : 3"), pairs(&[("a", "3")]));
}

#[test]
fn keys_compare_without_case() {
    assert_eq!(options("Topic: First\nTOPIC: Second"), pairs(&[("topic", "Second")]));
    assert_eq!(
        options("  Project :  ABC \n\ntext: Standup: 10:00\nkey:value\nurl: http://h:80"),
        pairs(&[("project", "ABC"), ("url", "http://h:80")])
    );
}

#[test]
fn options_of_joined_texts() {
    let texts = ["", "a: 1", "a: 2\nb: 3", "b: 4\r", "c: \r", "\n", "a: 5\n", "x", "B: 6\r\n"];
    for first in texts {
        for second in texts {
            let mut expected = parse_options(first).unwrap();
            for (name, value) in parse_options(second).unwrap().into_entries() {
                expected = expected.with(name, value);
            }
            let mut expected = expected.into_entries();
            expected.sort();
            assert_eq!(options(&format!("{}\n{}", first, second)), expected);
        }
    }
}

#[test]
fn other_lines_are_ignored() {
    assert_eq!(
        options("a:1\nb: 2: 3\nno option\n: \nc: d"),
        pairs(&[("", ""), ("c", "d")])
    );
    assert_eq!(options("a:  1"), pairs(&[("a", "1")]));
    assert_eq!(options("a: \r"), pairs(&[("a", "")]));
}

#[test]
fn one_line_holds_one_option() {
    assert_eq!(read_option("Key: Value"), Some(("key".to_owned(), "Value".to_owned())));
    assert_eq!(read_option("a: b: c"), None);
    assert_eq!(read_option("a:b"), None);
    assert_eq!(read_option(""), None);
}

#[test]
fn options_stand_between_the_marks() {
    assert_eq!(
        block(&format!("Agenda: none\n{}\nBye: now", BLOCK)),
        Ok(pairs(&[("project", "bot"), ("text", "hello")]))
    );
    assert_eq!(block("[PLATFORM_BOT][PLATFORM_BOT]"), Ok(vec![]));
}

#[test]
fn first_and_last_mark_count() {
    assert_eq!(
        block("[PLATFORM_BOT]a: 1\n[PLATFORM_BOT]\nb: 2\n[PLATFORM_BOT]"),
        Ok(pairs(&[("a", "1"), ("b", "2")]))
    );
}

#[test]
fn names_between_the_marks_are_put_into_lower_case() {
    assert_eq!(
        block("hi [PLATFORM_BOT]\nProject: A\n[PLATFORM_BOT]\nText: Yo\n[PLATFORM_BOT] bye: all"),
        Ok(pairs(&[("project", "A"), ("text", "Yo")]))
    );
}

#[test]
fn text_without_two_marks_has_no_options() {
    let message = "Invalid event format: No bot options found in event".to_owned();
    for content in ["", "project: bot", "[PLATFORM_BOT] project: bot", "[PLATFORM_BOT][PLATFORM"] {
        assert_eq!(block(content), Err(message.clone()));
    }
}

#[test]
fn later_project_of_a_code_counts() {
    let index = index_projects(vec![project(2, "a"), project(3, "b"), project(4, "a")]);
    assert_eq!(index.get("a").map(|project| project.id), Some(Uuid::from_u128(4)));
    assert_eq!(index.get("b").map(|project| project.id), Some(Uuid::from_u128(3)));
    assert!(index.get("c").is_none());
}

#[test]
fn project_is_named_by_the_options() {
    let processor = processor();
    let index = index_projects(vec![project(2, "bot")]);
    let find = |raw: &str| {
        processor
            .get_project_from_options(&parse_options(raw).unwrap(), &index)
            .map(|project| project.id)
            .map_err(|error| error.message())
    };
    assert_eq!(find("project: bot"), Ok(Uuid::from_u128(2)));
    assert_eq!(
        find("text: bot"),
        Err("Invalid event format: No project code in options".to_owned())
    );
    assert_eq!(find("project: Bot"), Err("Entity `Project Bot` is not found".to_owned()));
}

#[test]
fn event_starts_by_the_clock_of_its_time_zone() {
    let start = |date_time: &str, timezone: &str| {
        parse_event_time(&date(date_time, timezone)).map_err(|error| error.message())
    };
    let noon = 1_710_072_000;
    assert_eq!(start("2024-03-10T12:00:00", "UTC"), Ok(UtcTime { seconds: noon, nanos: 0 }));
    assert_eq!(
        start("2024-03-10T15:00:00.2500000", "Europe/Moscow"),
        Ok(UtcTime { seconds: noon, nanos: 250_000_000 })
    );
    assert_eq!(
        start("2024-03-10T12:00:00", "Mars/Olympus"),
        Err("Parsing error: Invalid timezone: failed to parse timezone".to_owned())
    );
    let malformed = start("10.03.2024 12:00", "UTC");
    assert!(
        matches!(&malformed, Err(text) if text.starts_with("Parsing error: Invalid datetime format: ")),
        "{:?}",
        malformed
    );
}

#[test]
fn local_time_must_be_shown_once() {
    for date_time in ["2024-03-10T02:30:00", "2024-11-03T01:30:00"] {
        match parse_event_time(&date(date_time, "America/New_York")) {
            Err(error) => assert_eq!(error.message(), "Parsing error: Invalid timestamp"),
            Ok(time) => panic!("{:?}", time),
        }
    }
    assert!(resolved_time(None).is_err());
    assert_eq!(resolved_time(Some((5, 6))).unwrap(), UtcTime { seconds: 5, nanos: 6 });
}

#[test]
fn time_is_judged_after_it_was_read() {
    assert_eq!(read_time(Ok((5, 6))).unwrap(), UtcTime { seconds: 5, nanos: 6 });
    assert_eq!(
        read_time(Err("x".to_owned())).unwrap_err().message(),
        "Parsing error: Invalid datetime format: x"
    );
}

#[test]
fn modification_time_is_rfc_3339() {
    assert_eq!(
        parse_modification_time("1970-01-01T03:00:01.5+03:00").unwrap(),
        UtcTime { seconds: 1, nanos: 500_000_000 }
    );
    match parse_modification_time("yesterday") {
        Err(error) => {
            assert!(error.message().starts_with("Parsing error: Invalid datetime format: "))
        }
        Ok(time) => panic!("{:?}", time),
    }
}

#[test]
fn task_stands_for_its_event() {
    let params = processor()
        .process_single_event(&event("Stand-up", BLOCK), &index_projects(vec![project(2, "bot")]))
        .unwrap();
    assert_eq!(params.name, "Stand-up");
    assert_eq!(params.task_type, "notify");
    assert_eq!(params.schedule, None);
    assert_eq!(params.project_id, Uuid::from_u128(2));
    assert_eq!(params.external_id.as_deref(), Some("id of Stand-up"));
    assert_eq!(
        params.external_modified_at,
        Some(UtcTime { seconds: 1_709_974_800, nanos: 500_000_000 })
    );
    assert_eq!(params.start_at, 1_710_054_000);
    assert_eq!(params.options.to_string(), "{\"project\":\"bot\",\"text\":\"hello\"}");
}

#[test]
fn first_fault_of_an_event_is_told() {
    let mut faulty = event("e", "no marks");
    faulty.start.timezone = "Mars/Olympus".to_owned();
    faulty.last_modified = "yesterday".to_owned();
    assert_eq!(
        single(&faulty, vec![]),
        Err("Invalid event format: No bot options found in event".to_owned())
    );
    faulty.body.content = BLOCK.to_owned();
    assert_eq!(single(&faulty, vec![]), Err("Entity `Project bot` is not found".to_owned()));
    assert_eq!(
        single(&faulty, vec![project(2, "bot")]),
        Err("Parsing error: Invalid timezone: failed to parse timezone".to_owned())
    );
    faulty.start.timezone = "UTC".to_owned();
    assert!(matches!(
        single(&faulty, vec![project(2, "bot")]),
        Err(text) if text.starts_with("Parsing error: Invalid datetime format: ")
    ));
    faulty.last_modified = "2024-03-09T12:00:00Z".to_owned();
    assert_eq!(single(&faulty, vec![project(2, "bot")]), Ok(1_710_064_800));
}

#[test]
fn start_is_cut_to_32_bits() {
    let mut late = event("e", BLOCK);
    late.start = date("2038-01-19T03:14:08", "UTC");
    assert_eq!(single(&late, vec![project(2, "bot")]), Ok(i32::MIN));
}

#[test]
fn marked_events_are_tried_in_order() {
    let outcomes = processor().process_events(
        vec![
            event("first", BLOCK),
            event("second", "nothing"),
            event("third", "[PLATFORM_BOT]"),
            event("fourth", BLOCK),
        ],
        vec![project(2, "bot")],
    );
    let told: Vec<(&str, Result<&str, String>)> = outcomes
        .iter()
        .map(|outcome| {
            let params = match &outcome.params {
                Ok(params) => Ok(params.name.as_str()),
                Err(error) => Err(error.message()),
            };
            (outcome.subject.as_str(), params)
        })
        .collect();
    assert_eq!(
        told,
        vec![
            ("first", Ok("first")),
            ("third", Err("Invalid event format: No bot options found in event".to_owned())),
            ("fourth", Ok("fourth")),
        ]
    );
}

#[test]
fn credentials_come_from_variables() {
    let value = |text: &str| Some(text.to_owned());
    let missing = |server, username, password| {
        Credentials::from_variables(server, username, password)
            .map(|credentials| credentials.username)
            .map_err(|error| error.message())
    };
    assert_eq!(missing(value("s"), value("u"), value("p")), Ok("u".to_owned()));
    assert_eq!(
        missing(None, None, None),
        Err("Environment variable not set: EXCHANGE_URL".to_owned())
    );
    assert_eq!(
        missing(value("s"), None, None),
        Err("Environment variable not set: EXCHANGE_LOGIN".to_owned())
    );
    assert_eq!(
        missing(value("s"), value("u"), None),
        Err("Environment variable not set: EXCHANGE_PASSWORD".to_owned())
    );
}

fn client() -> ExchangeClient {
    ExchangeClient::new("https://mail".to_owned(), "user".to_owned(), "word".to_owned())
}

#[test]
fn settings_are_made_in_order() {
    let client = client();
    assert_eq!(client.base_url, "https://mail");
    assert_eq!(client.settings.len(), 9);
    assert!(matches!(
        &client.settings[0],
        Setting::Header(line) if line == "Prefer: outlook.body-content-type=\"text\""
    ));
    assert!(matches!(
        &client.settings[1],
        Setting::Header(line) if line == "Prefer: outlook.timezone=\"Europe/Moscow\""
    ));
    assert!(matches!(
        &client.settings[2],
        Setting::Authentication { ntlm: true, negotiate: false }
    ));
    assert!(matches!(&client.settings[3], Setting::Username(name) if name == "user"));
    assert!(matches!(&client.settings[4], Setting::Password(password) if password == "word"));
    assert!(matches!(&client.settings[5], Setting::ConnectTimeout(1024)));
    assert!(matches!(&client.settings[6], Setting::Timeout(15)));
    assert!(matches!(&client.settings[7], Setting::UserAgent(name) if name == "Platform-Bot"));
    assert!(matches!(&client.settings[8], Setting::Headers));
}

#[test]
fn setting_failures() {
    let front = "Exchange request configuration error: Failed to";
    let told: Vec<String> =
        client().settings.iter().map(|setting| setting.failure("x").message()).collect();
    let complaints = [
        "create request headers",
        "create request headers",
        "set http auth",
        "set username",
        "set password",
        "set connection timeout",
        "set request timeout",
        "set user agent",
        "set headers",
    ];
    for (message, complaint) in told.iter().zip(complaints) {
        assert_eq!(*message, format!("{} {}: x", front, complaint));
    }
    assert_eq!(
        ExchangeClient::url_failure("x").message(),
        format!("{} set request url: x", front)
    );
    assert_eq!(ExchangeClient::request_failure("x").message(), "x");
    assert_eq!(ExchangeClient::status_failure("x").message(), "Exchange connection error: x");
}

#[test]
fn request_names_the_time_in_utc() {
    let at = |seconds: i64| UtcTime { seconds, nanos: 999 };
    assert_eq!(
        client().request_url(at(0), at(1_710_072_000)),
        "https://mail/api/v2.0/me/calendarview?startDateTime=1970-01-01T00:00:00\
         &endDateTime=2024-03-10T12:00:00\
         &$select=Subject,Start,Location,Body,LastModifiedDateTime"
    );
    assert!(client()
        .request_url(at(-8_334_601_228_800), at(8_210_266_876_799))
        .contains("262142-12-31T23:59:59"));
    assert_eq!(
        client().events_url("a", "b"),
        "https://mail/api/v2.0/me/calendarview?startDateTime=a&endDateTime=b\
         &$select=Subject,Start,Location,Body,LastModifiedDateTime"
    );
}

#[test]
fn answer_comes_in_pieces() {
    let mut collector = ResponseCollector::new();
    assert_eq!(collector.write("caf".as_bytes()), 3);
    assert_eq!(collector.write(&[]), 0);
    assert_eq!(collector.write("\u{e9}".as_bytes()), 2);
    assert_eq!(response_text(200, &collector).unwrap(), "caf\u{e9}");
    match response_text(503, &collector) {
        Err(error) => assert_eq!(error.message(), "Exchange API error: 503 - caf\u{e9}"),
        Ok(text) => panic!("{}", text),
    }
}

#[test]
fn text_of_an_answer_is_judged() {
    assert_eq!(response_content(200, "t".to_owned()).unwrap(), "t");
    assert_eq!(
        response_content(201, "t".to_owned()).unwrap_err().message(),
        "Exchange API error: 201 - t"
    );
}

#[test]
fn bytes_that_are_no_text_are_replaced() {
    let mut collector = ResponseCollector::new();
    collector.write(&[b'a', 0xff, b'b']);
    assert_eq!(response_text(200, &collector).unwrap(), "a\u{fffd}b");
}

#[test]
fn only_a_parsed_answer_is_forgotten() {
    let mut collector = ResponseCollector::new();
    collector.write(b"{}");
    match take_response(Err("no value".to_owned()), &mut collector) {
        Err(error) => assert_eq!(
            error.message(),
            "Parsing error: Failed to parse exchange response: no value"
        ),
        Ok(response) => panic!("{:?}", response),
    }
    assert_eq!(collector.0, b"{}");
    let response =
        take_response(Ok(ExchangeResponse { value: vec![event("e", "")] }), &mut collector).unwrap();
    assert_eq!(response.value.len(), 1);
    assert!(collector.0.is_empty());
}

#[test]
fn calendar_steps() {
    let processor = processor();
    let step = |event: CalendarEvent| calendar_step(&processor, event);
    assert!(matches!(step(CalendarEvent::Elapsed), CalendarStep::Fetch));
    let events = match step(CalendarEvent::Fetched(ExchangeResponse {
        value: vec![event("first", BLOCK), event("second", "nothing")],
    })) {
        CalendarStep::LoadProjects(events) => events,
        step => panic!("{:?}", step),
    };
    assert_eq!(events.len(), 2);
    match step(CalendarEvent::Loaded(events, vec![project(2, "bot")])) {
        CalendarStep::Store(outcomes) => {
            assert_eq!(outcomes.len(), 1);
            assert!(outcomes[0].params.is_ok());
        }
        step => panic!("{:?}", step),
    }
    assert!(matches!(step(CalendarEvent::Stored), CalendarStep::CleanUp));
    assert!(matches!(step(CalendarEvent::CleanedUp), CalendarStep::Wait));
    assert!(matches!(
        step(CalendarEvent::Failed(ServiceError::InvalidCredentials())),
        CalendarStep::Wait
    ));
    assert!(matches!(step(CalendarEvent::Cancelled), CalendarStep::Stop));
}
