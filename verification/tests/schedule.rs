use serde_json::Value;
use team_bot::entity::project::ProjectRow;
use team_bot::entity::task::Task;
use team_bot::entity::time::UtcTime;
use team_bot::executor::flow::{TaskError, TaskFlow};
use team_bot::executor::poll::{poll_step, PollEvent, PollStep};
use team_bot::executor::schedule::{
    calculate_cron_next_run, calculate_interval_next_run, calculate_next_run,
    calculate_next_run_at, cron_run, interval_run, ScheduleError,
};
use uuid::Uuid;

fn text(text: &str) -> Value {
    Value::String(text.to_owned())
}

fn object(members: &[(&str, Value)]) -> Value {
    Value::Object(members.iter().map(|(name, value)| (name.to_string(), value.clone())).collect())
}

fn task(task_type: &str, options: Value, project_options: Value) -> Task {
    let now = UtcTime { seconds: 1_700_000_000, nanos: 0 };
    Task {
        id: Uuid::from_u128(17),
        task_type: task_type.to_owned(),
        status: "new".to_owned(),
        project: ProjectRow {
            id: Uuid::from_u128(23),
            name: "name".to_owned(),
            code: "code".to_owned(),
            sync_with_exchange: 0,
            owner_id: Uuid::from_u128(29),
            created_at: now,
            updated_at: now,
            options: project_options,
        },
        retries: 0,
        name: "task".to_owned(),
        external_id: None,
        external_modified_at: None,
        schedule: None,
        start_at: 0,
        options,
        created_at: now,
        updated_at: now,
    }
}

fn scheduled(schedule: Option<&str>, start_at: i32) -> Task {
    let mut task = task("notify", Value::Null, Value::Null);
    task.schedule = schedule.map(|schedule| schedule.to_owned());
    task.start_at = start_at;
    task
}

/// The names of the work on a task whose pieces end as given.
fn processed(task: &Task, known_worker: bool, outcomes: &[bool], now: i64) -> TaskFlow {
    let mut flow = TaskFlow::start();
    for outcome in outcomes {
        flow = flow.advance_at(task, known_worker, *outcome, now);
    }
    flow
}

#[test]
fn interval_is_added_to_the_start() {
    assert!(matches!(calculate_interval_next_run("@every 5m", 1000), Ok(1300)));
    assert!(matches!(calculate_interval_next_run("@every 1h", 0), Ok(3600)));
    assert!(matches!(calculate_interval_next_run("@every 1d", -10), Ok(86390)));
}

#[test]
fn fractions_of_a_second_are_dropped() {
    assert!(matches!(calculate_interval_next_run("@every 1500ms", 10), Ok(11)));
    assert!(matches!(calculate_interval_next_run("@every 999ms", 10), Ok(10)));
}

#[test]
fn repeated_prefix_is_ignored() {
    assert!(matches!(calculate_interval_next_run("@every @every 5m", 1000), Ok(1300)));
    assert!(matches!(calculate_interval_next_run("5m", 1000), Ok(1300)));
}

#[test]
fn interval_sum_is_cut_to_32_bits() {
    assert!(matches!(calculate_interval_next_run("@every 1s", i32::MAX), Ok(i32::MIN)));
}

#[test]
fn unreadable_interval() {
    match calculate_interval_next_run("@every soon", 0) {
        Err(ScheduleError::Duration(reason)) => {
            assert!(!reason.is_empty());
            assert_eq!(
                ScheduleError::Duration(reason.clone()).message(),
                format!("Failed to parse duration: {}", reason)
            );
        }
        other => panic!("{:?}", other),
    }
}

#[test]
fn interval_without_its_blank_cannot_be_read() {
    assert!(matches!(calculate_interval_next_run("@every5m", 0), Err(ScheduleError::Duration(_))));
}

#[test]
fn interval_that_is_too_long() {
    let longest = calculate_interval_next_run("@every 18446744073s", 0);
    assert!(matches!(longest, Ok(1_266_874_889)), "{:?}", longest);
    match calculate_interval_next_run("@every 18446744074s", 0) {
        Err(ScheduleError::Duration(reason)) => assert!(reason.contains("overflow error")),
        other => panic!("{:?}", other),
    }
    assert_eq!(ScheduleError::DurationRange.message(), "Failed to convert duration");
}

#[test]
fn run_follows_from_the_duration() {
    assert!(matches!(interval_run(Ok((300, 999_999_999)), 1000), Ok(1300)));
    assert!(matches!(interval_run(Ok((1, 0)), i32::MAX), Ok(i32::MIN)));
    assert!(matches!(
        interval_run(Err("x".to_owned()), 0),
        Err(ScheduleError::Duration(reason)) if reason == "x"
    ));
    assert!(interval_run(Ok((9_223_372_036_854_775, 807_000_000)), 0).is_ok());
    assert!(matches!(
        interval_run(Ok((9_223_372_036_854_775, 807_000_001)), 0),
        Err(ScheduleError::DurationRange)
    ));
    assert!(matches!(interval_run(Ok((u64::MAX, 0)), 0), Err(ScheduleError::DurationRange)));
}

#[test]
fn run_follows_from_the_cron_schedule() {
    assert!(matches!(cron_run(Ok::<Option<i64>, ()>(Some(43_200))), Ok(43_200)));
    assert!(matches!(cron_run(Ok::<Option<i64>, ()>(Some(1 << 31))), Ok(i32::MIN)));
    assert!(matches!(cron_run(Ok::<Option<i64>, ()>(None)), Err(ScheduleError::NoCronRun)));
    assert!(matches!(cron_run(Err(())), Err(ScheduleError::CronSyntax)));
}

#[test]
fn cron_run_lies_after_the_start() {
    assert!(matches!(calculate_cron_next_run("0 0 12 * * *", 0), Ok(43_200)));
    assert!(matches!(calculate_cron_next_run("0 0 12 * * *", 43_200), Ok(129_600)));
    assert!(matches!(calculate_cron_next_run("0 30 9 * * Mon *", 0), Ok(379_800)));
}

#[test]
fn unreadable_cron_schedule() {
    assert!(matches!(calculate_cron_next_run("every noon", 0), Err(ScheduleError::CronSyntax)));
    assert!(matches!(calculate_cron_next_run("", 0), Err(ScheduleError::CronSyntax)));
    assert_eq!(ScheduleError::CronSyntax.message(), "Failed to parse cron schedule");
}

#[test]
fn cron_schedule_without_a_next_run() {
    let run = calculate_cron_next_run("0 0 0 1 1 * 1971", 100_000_000);
    assert!(matches!(run, Err(ScheduleError::NoCronRun)), "{:?}", run);
    assert_eq!(ScheduleError::NoCronRun.message(), "Failed to calculate next cron run");
}

#[test]
fn invalid_timestamp_message() {
    assert_eq!(ScheduleError::InvalidTimestamp.message(), "Invalid timestamp");
}

#[test]
fn next_run_is_not_in_the_past() {
    let every = scheduled(Some("@every 5m"), 1000);
    assert!(matches!(calculate_next_run_at(&every, 1200), Ok(1300)));
    assert!(matches!(calculate_next_run_at(&every, 1300), Ok(1300)));
    assert!(matches!(calculate_next_run_at(&every, 5000), Ok(5000)));
}

#[test]
fn unscheduled_task_runs_at_its_start() {
    let once = scheduled(None, 1000);
    assert!(matches!(calculate_next_run_at(&once, 999), Ok(1000)));
    assert!(matches!(calculate_next_run_at(&once, 1001), Ok(1001)));
}

#[test]
fn schedule_prefix_decides_how_it_is_read() {
    assert!(matches!(
        calculate_next_run_at(&scheduled(Some("@everything"), 0), 0),
        Err(ScheduleError::Duration(_))
    ));
    assert!(matches!(
        calculate_next_run_at(&scheduled(Some("5m"), 0), 0),
        Err(ScheduleError::CronSyntax)
    ));
    assert!(matches!(calculate_next_run_at(&scheduled(Some("0 0 12 * * *"), 0), 7), Ok(43_200)));
}

#[test]
fn next_run_by_the_clock_is_in_the_future() {
    let before = chrono::Utc::now().timestamp() as i32;
    let run = calculate_next_run(&scheduled(Some("@every 5m"), 1000)).unwrap();
    assert!(run >= before);
    assert_eq!(calculate_next_run(&scheduled(None, i32::MAX)).unwrap(), i32::MAX);
}

#[test]
fn successful_task_without_schedule_is_completed() {
    let task = scheduled(None, 1000);
    assert!(matches!(processed(&task, true, &[], 0), TaskFlow::MarkRunning));
    assert!(matches!(processed(&task, true, &[true], 0), TaskFlow::Execute));
    assert!(matches!(processed(&task, true, &[true, true], 0), TaskFlow::MarkCompleted));
    assert!(matches!(
        processed(&task, true, &[true, true, true], 0),
        TaskFlow::Finished(Ok(()))
    ));
}

#[test]
fn successful_task_with_schedule_is_scheduled() {
    let task = scheduled(Some("@every 5m"), 1000);
    assert!(matches!(processed(&task, true, &[true, true], 1100), TaskFlow::Schedule(1300)));
    assert!(matches!(processed(&task, true, &[true, true], 9000), TaskFlow::Schedule(9000)));
    assert!(matches!(
        processed(&task, true, &[true, true, true], 9000),
        TaskFlow::Finished(Ok(()))
    ));
}

#[test]
fn failed_task_is_marked_as_failed() {
    for task in [scheduled(None, 1000), scheduled(Some("@every 5m"), 1000)] {
        assert!(matches!(processed(&task, true, &[true, false], 0), TaskFlow::MarkFailed));
        assert!(matches!(
            processed(&task, true, &[true, false, true], 0),
            TaskFlow::Finished(Ok(()))
        ));
    }
}

#[test]
fn processing_errors() {
    let once = scheduled(None, 1000);
    let every = scheduled(Some("@every 5m"), 1000);
    let broken = scheduled(Some("@every soon"), 1000);
    let cases: Vec<(&Task, bool, &[bool], &str)> = vec![
        (&once, true, &[false], "Failed to set task status to in_progress"),
        (&once, false, &[true], "Unknown worker type: notify"),
        (&broken, true, &[true, true], "Failed to calculate next run time"),
        (&every, true, &[true, true, false], "Failed to schedule next task run"),
        (&once, true, &[true, true, false], "Failed to mark task as completed"),
        (&once, true, &[true, false, false], "Failed to mark task as failed"),
    ];
    for (task, known_worker, outcomes, message) in cases {
        match processed(task, known_worker, outcomes, 0) {
            TaskFlow::Finished(Err(error)) => assert_eq!(error.message(), message),
            flow => panic!("{:?}", flow),
        }
    }
}

#[test]
fn finished_processing_stays_finished() {
    let task = scheduled(None, 1000);
    assert!(matches!(
        processed(&task, true, &[false, true, true, true], 0),
        TaskFlow::Finished(Err(TaskError::MarkRunning))
    ));
}

#[test]
fn task_is_scheduled_by_the_clock() {
    let task = scheduled(Some("@every 5m"), i32::MAX - 300);
    let flow = TaskFlow::start().advance(&task, true, true).advance(&task, true, true);
    assert!(matches!(flow, TaskFlow::Schedule(i32::MAX)), "{:?}", flow);
}

#[test]
fn poll_steps() {
    assert!(matches!(poll_step(PollEvent::Elapsed), PollStep::Load));
    assert!(matches!(
        poll_step(PollEvent::LoadFailed("no table".to_owned())),
        PollStep::Wait
    ));
    assert!(matches!(poll_step(PollEvent::Enqueued), PollStep::Wait));
    assert!(matches!(poll_step(PollEvent::Cancelled), PollStep::Stop));
    match poll_step(PollEvent::Loaded(vec![scheduled(None, 1), scheduled(None, 2)])) {
        PollStep::Enqueue(tasks) => {
            assert_eq!(tasks.iter().map(|task| task.start_at).collect::<Vec<_>>(), vec![1, 2]);
        }
        step => panic!("{:?}", step),
    }
}

#[test]
fn task_options_do_not_decide_the_flow() {
    let mut other = scheduled(None, 1000);
    other.options = object(&[("text", text("hello"))]);
    assert!(matches!(processed(&other, true, &[true, true], 0), TaskFlow::MarkCompleted));
}
