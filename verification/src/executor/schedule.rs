//! When a task runs next.

use crate::entity::task::Task;
use crate::text::{begins_with, concat2, starts_with, trim_start_matches, without_leading};
use chrono::{DateTime, Utc};
use cron::Schedule;
use std::str::FromStr;
use vstd::prelude::*;

verus! {

/// The prefix of a schedule that repeats after a fixed time.
pub const EVERY: &'static str = "@every";

/// The prefix together with the blank before the time.
pub const EVERY_BLANK: &'static str = "@every ";

// ---------------------------------------------------------------------------
// Calls into other libraries
// ---------------------------------------------------------------------------

/// Declares the cron schedule of `cron`.
#[verifier::external_type_specification]
#[verifier::external_body]
pub struct ExSchedule(cron::Schedule);

/// Declares the parse error of `cron`.
#[verifier::external_type_specification]
#[verifier::external_body]
pub struct ExCronError(cron::error::Error);

/// The length of time that `duration_str::parse` reads from a text, in seconds
/// and nanoseconds, or the text of its error.
pub uninterp spec fn duration_of(text: Seq<char>) -> Result<(u64, u32), Seq<char>>;

/// Whether `cron::Schedule::from_str` accepts a text.
pub uninterp spec fn cron_valid(text: Seq<char>) -> bool;

/// What `Display` of a cron schedule writes: the text that it was read from.
pub uninterp spec fn cron_source(schedule: cron::Schedule) -> Seq<char>;

/// The first point in time after `start` that the cron schedule with this text
/// names, both in seconds since the Unix epoch.
pub uninterp spec fn cron_next(text: Seq<char>, start: i32) -> Option<i64>;

/// `chrono::DateTime::from_timestamp` and `timestamp`: a 32-bit number of
/// seconds since the Unix epoch is always in range and comes back unchanged.
#[verifier::external_body]
fn utc_timestamp(seconds: i32) -> (timestamp: Option<i64>)
    ensures
        timestamp == Some(seconds as i64),
{
    DateTime::from_timestamp(seconds as i64, 0).map(|time| time.timestamp())
}

/// `chrono::Utc::now`, in seconds since the Unix epoch. Nothing is promised of
/// the clock.
#[verifier::external_body]
fn utc_now() -> (seconds: i64) {
    Utc::now().timestamp()
}

/// `duration_str::parse`: the result depends on the text alone. The
/// nanoseconds are less than a second.
#[verifier::external_body]
fn parse_duration(text: &str) -> (duration: Result<(u64, u32), String>)
    ensures
        match duration {
            Ok(duration) => duration_of(text@) == Ok::<(u64, u32), Seq<char>>(duration)
                && duration.1 < 1_000_000_000,
            Err(error) => duration_of(text@) == Err::<(u64, u32), Seq<char>>(error@),
        },
{
    duration_str::parse(text).map(|time| (time.as_secs(), time.subsec_nanos()))
}

/// Whether a length of time is at most the greatest `chrono::Duration`, which
/// is `i64::MAX` milliseconds.
pub open spec fn fits_chrono(seconds: u64, nanos: u32) -> bool {
    seconds * 1_000_000_000 + nanos <= i64::MAX * 1_000_000
}

/// `chrono::Duration::from_std` and `num_seconds`: the whole seconds of a
/// length of time that is not too great.
#[verifier::external_body]
fn whole_seconds(seconds: u64, nanos: u32) -> (whole: Option<i64>)
    requires
        nanos < 1_000_000_000,
    ensures
        match whole {
            Some(whole) => fits_chrono(seconds, nanos) && whole == seconds,
            None => !fits_chrono(seconds, nanos),
        },
{
    chrono::Duration::from_std(std::time::Duration::new(seconds, nanos)).ok().map(
        |duration| duration.num_seconds(),
    )
}

/// `cron::Schedule::from_str`: whether a text is accepted depends on the text
/// alone, and the schedule keeps it.
#[verifier::external_body]
fn parse_cron(text: &str) -> (schedule: Result<Schedule, cron::error::Error>)
    ensures
        schedule is Ok <==> cron_valid(text@),
        schedule matches Ok(schedule) ==> cron_source(schedule) == text@,
{
    Schedule::from_str(text)
}

/// `cron::Schedule::after` and the first item of its iterator: the next point
/// in time depends on the schedule's text and the start, and lies after the
/// start.
#[verifier::external_body]
fn cron_after(schedule: &Schedule, start: i32) -> (next: Option<i64>)
    ensures
        next == cron_next(cron_source(*schedule), start),
        next matches Some(next) ==> next > start,
{
    let start = DateTime::from_timestamp(start as i64, 0)?;
    schedule.after(&start).next().map(|time| time.timestamp())
}

// ---------------------------------------------------------------------------
// Errors
// ---------------------------------------------------------------------------

/// Why no next run can be told.
#[derive(Debug)]
pub enum ScheduleError {
    /// The task's start is no point in time.
    InvalidTimestamp,
    /// The repeat time cannot be read; with the reason.
    Duration(String),
    /// The repeat time is too long.
    DurationRange,
    /// The cron schedule cannot be read.
    CronSyntax,
    /// The cron schedule names no point in time after the start.
    NoCronRun,
}

/// A [`ScheduleError`] with its text as a character sequence.
pub enum ScheduleErrorView {
    InvalidTimestamp,
    Duration(Seq<char>),
    DurationRange,
    CronSyntax,
    NoCronRun,
}

impl View for ScheduleError {
    type V = ScheduleErrorView;

    open spec fn view(&self) -> ScheduleErrorView {
        match *self {
            ScheduleError::InvalidTimestamp => ScheduleErrorView::InvalidTimestamp,
            ScheduleError::Duration(text) => ScheduleErrorView::Duration(text@),
            ScheduleError::DurationRange => ScheduleErrorView::DurationRange,
            ScheduleError::CronSyntax => ScheduleErrorView::CronSyntax,
            ScheduleError::NoCronRun => ScheduleErrorView::NoCronRun,
        }
    }
}

impl ScheduleErrorView {
    /// The message that a person reads.
    pub open spec fn message(self) -> Seq<char> {
        match self {
            ScheduleErrorView::InvalidTimestamp => "Invalid timestamp"@,
            ScheduleErrorView::Duration(text) => "Failed to parse duration: "@ + text,
            ScheduleErrorView::DurationRange => "Failed to convert duration"@,
            ScheduleErrorView::CronSyntax => "Failed to parse cron schedule"@,
            ScheduleErrorView::NoCronRun => "Failed to calculate next cron run"@,
        }
    }
}

impl ScheduleError {
    /// The message that a person reads.
    pub fn message(&self) -> (message: String)
        ensures
            message@ == self@.message(),
    {
        match self {
            ScheduleError::InvalidTimestamp => "Invalid timestamp".to_owned(),
            ScheduleError::Duration(text) => concat2("Failed to parse duration: ", text.as_str()),
            ScheduleError::DurationRange => "Failed to convert duration".to_owned(),
            ScheduleError::CronSyntax => "Failed to parse cron schedule".to_owned(),
            ScheduleError::NoCronRun => "Failed to calculate next cron run".to_owned(),
        }
    }
}

/// A result with the error as its view.
pub open spec fn run_view(run: Result<i32, ScheduleError>) -> Result<i32, ScheduleErrorView> {
    match run {
        Ok(run) => Ok(run),
        Err(error) => Err(error@),
    }
}

// ---------------------------------------------------------------------------
// The next run
// ---------------------------------------------------------------------------

/// The run after `start` of a task that repeats after a length of time, in
/// seconds and nanoseconds, or the text that tells why it cannot be read. The sum
/// is cut to its low 32 bits.
pub open spec fn run_after(duration: Result<(u64, u32), Seq<char>>, start: i32) -> Result<
    i32,
    ScheduleErrorView,
> {
    match duration {
        Err(text) => Err(ScheduleErrorView::Duration(text)),
        Ok((seconds, nanos)) => if fits_chrono(seconds, nanos) {
            Ok((start + seconds) as i32)
        } else {
            Err(ScheduleErrorView::DurationRange)
        },
    }
}

/// The run after `start` of a task that repeats after a fixed time.
pub open spec fn interval_next_run(schedule: Seq<char>, start: i32) -> Result<
    i32,
    ScheduleErrorView,
> {
    run_after(duration_of(without_leading(schedule, EVERY_BLANK@)), start)
}

/// The run of a task with a cron schedule, given whether the schedule can be read
/// and the point in time that it names. The point in time is cut to its low 32
/// bits.
pub open spec fn run_at(valid: bool, next: Option<i64>) -> Result<i32, ScheduleErrorView> {
    if !valid {
        Err(ScheduleErrorView::CronSyntax)
    } else {
        match next {
            Some(next) => Ok(next as i32),
            None => Err(ScheduleErrorView::NoCronRun),
        }
    }
}

/// The run after `start` of a task with a cron schedule.
pub open spec fn cron_next_run(schedule: Seq<char>, start: i32) -> Result<i32, ScheduleErrorView> {
    run_at(cron_valid(schedule), cron_next(schedule, start))
}

/// The run that a schedule names, whatever the time is now: without a schedule
/// it is the start itself.
pub open spec fn scheduled_run(schedule: Option<Seq<char>>, start: i32) -> Result<
    i32,
    ScheduleErrorView,
> {
    match schedule {
        Some(schedule) => if begins_with(schedule, EVERY@) {
            interval_next_run(schedule, start)
        } else {
            cron_next_run(schedule, start)
        },
        None => Ok(start),
    }
}

/// The schedule of a task as a character sequence.
pub open spec fn schedule_text(task: Task) -> Option<Seq<char>> {
    match task.schedule {
        Some(schedule) => Some(schedule@),
        None => None,
    }
}

/// The next run of a task at the time `now`: the run that its schedule names,
/// but not before now. The time is cut to its low 32 bits.
pub open spec fn next_run(task: Task, now: i64) -> Result<i32, ScheduleErrorView> {
    match scheduled_run(schedule_text(task), task.start_at) {
        Ok(run) => Ok(
            if run >= now as i32 {
                run
            } else {
                now as i32
            },
        ),
        Err(error) => Err(error),
    }
}

/// A length of time with its error as a character sequence.
pub open spec fn duration_view(duration: Result<(u64, u32), String>) -> Result<
    (u64, u32),
    Seq<char>,
> {
    match duration {
        Ok(duration) => Ok(duration),
        Err(error) => Err(error@),
    }
}

/// The run after `start_at` of a task that repeats after a length of time, in
/// seconds and nanoseconds, where that could be read.
pub fn interval_run(duration: Result<(u64, u32), String>, start_at: i32) -> (run: Result<
    i32,
    ScheduleError,
>)
    requires
        duration matches Ok((_, nanos)) ==> nanos < 1_000_000_000,
    ensures
        run_view(run) == run_after(duration_view(duration), start_at),
{
    match duration {
        Ok((seconds, nanos)) => match whole_seconds(seconds, nanos) {
            Some(whole) => {
                let sum: i64 = start_at as i64 + whole;
                Ok(#[verifier::truncate] (sum as i32))
            },
            None => Err(ScheduleError::DurationRange),
        },
        Err(error) => Err(ScheduleError::Duration(error)),
    }
}

/// The run after `start_at` of a task that repeats after a fixed time.
pub fn calculate_interval_next_run(schedule: &str, start_at: i32) -> (run: Result<
    i32,
    ScheduleError,
>)
    ensures
        run_view(run) == interval_next_run(schedule@, start_at),
{
    proof {
        reveal_strlit("@every ");
    }
    let duration: &str = trim_start_matches(schedule, EVERY_BLANK);
    interval_run(parse_duration(duration), start_at)
}

/// The run of a task with a cron schedule, given the point in time that the
/// schedule names, or that it cannot be read.
pub fn cron_run<E>(next: Result<Option<i64>, E>) -> (run: Result<i32, ScheduleError>)
    ensures
        run_view(run) == match next {
            Ok(next) => run_at(true, next),
            Err(_) => run_at(false, None),
        },
{
    match next {
        Ok(Some(next)) => Ok(#[verifier::truncate] (next as i32)),
        Ok(None) => Err(ScheduleError::NoCronRun),
        Err(_) => Err(ScheduleError::CronSyntax),
    }
}

/// The run after `start_at` of a task with a cron schedule. As long as it is a
/// 32-bit number, it lies after the start.
pub fn calculate_cron_next_run(schedule: &str, start_at: i32) -> (run: Result<i32, ScheduleError>)
    ensures
        run_view(run) == cron_next_run(schedule@, start_at),
        run matches Ok(run) ==> (cron_next(schedule@, start_at) matches Some(next) && next
            > start_at && (next <= i32::MAX ==> run > start_at)),
{
    match parse_cron(schedule) {
        Ok(parsed) => cron_run(
            Ok::<Option<i64>, cron::error::Error>(cron_after(&parsed, start_at)),
        ),
        Err(error) => cron_run(Err(error)),
    }
}

/// The next run of `task` when the time is `now`, in seconds since the Unix
/// epoch.
pub fn calculate_next_run_at(task: &Task, now: i64) -> (run: Result<i32, ScheduleError>)
    ensures
        run_view(run) == next_run(*task, now),
{
    let start_at: i32 = task.start_at;
    match utc_timestamp(start_at) {
        Some(_) => {},
        None => {
            return Err(ScheduleError::InvalidTimestamp);
        },
    }
    let scheduled: Result<i32, ScheduleError> = match &task.schedule {
        Some(schedule) => if starts_with(schedule.as_str(), EVERY) {
            calculate_interval_next_run(schedule.as_str(), start_at)
        } else {
            calculate_cron_next_run(schedule.as_str(), start_at)
        },
        None => Ok(start_at),
    };
    match scheduled {
        Ok(run) => {
            let present: i32 = #[verifier::truncate] (now as i32);
            Ok(
                if run >= present {
                    run
                } else {
                    present
                },
            )
        },
        Err(error) => Err(error),
    }
}

/// `now` is a time that the clock of this machine may tell.
pub closed spec fn clock_tells(now: i64) -> bool {
    call_ensures(utc_now, (), now)
}

/// The next run of `task`, by the clock of this machine.
pub fn calculate_next_run(task: &Task) -> (run: Result<i32, ScheduleError>)
    ensures
        exists|now: i64| clock_tells(now) && run_view(run) == #[trigger] next_run(*task, now),
{
    let now: i64 = utc_now();
    assert(clock_tells(now));
    calculate_next_run_at(task, now)
}

// ---------------------------------------------------------------------------
// Laws
// ---------------------------------------------------------------------------

/// A task is never set to run in the past, and never before the run that its
/// schedule names; and it is one of the two. Whether there is a next run does
/// not depend on the time.
pub proof fn law_next_run_is_not_in_the_past(task: Task, now: i64)
    requires
        i32::MIN <= now <= i32::MAX,
    ensures
        next_run(task, now) is Ok <==> scheduled_run(schedule_text(task), task.start_at) is Ok,
        next_run(task, now) matches Ok(run) ==> {
            let scheduled = scheduled_run(schedule_text(task), task.start_at)->Ok_0;
            run >= now && run >= scheduled && (run == now || run == scheduled)
        },
{
}

/// As time passes, the next run does not move back.
pub proof fn law_next_run_is_monotone(task: Task, earlier: i64, later: i64)
    requires
        i32::MIN <= earlier <= later <= i32::MAX,
        next_run(task, earlier) is Ok,
    ensures
        next_run(task, later) is Ok,
        next_run(task, earlier)->Ok_0 <= next_run(task, later)->Ok_0,
{
}

/// A task without a schedule runs at its start, or now where that is past.
pub proof fn law_unscheduled_task_runs_at_its_start(task: Task, now: i64)
    requires
        i32::MIN <= now <= i32::MAX,
        task.schedule is None,
    ensures
        next_run(task, now) == Ok::<i32, ScheduleErrorView>(
            if task.start_at >= now {
                task.start_at
            } else {
                now as i32
            },
        ),
{
}

/// A task that repeats after a fixed time runs that many seconds after its
/// start, as long as the sum is a 32-bit number.
pub proof fn law_interval_is_added_to_the_start(
    schedule: Seq<char>,
    start: i32,
    seconds: u64,
    nanos: u32,
)
    requires
        duration_of(without_leading(schedule, EVERY_BLANK@)) == Ok::<(u64, u32), Seq<char>>(
            (seconds, nanos),
        ),
        start + seconds <= i32::MAX,
        nanos < 1_000_000_000,
    ensures
        interval_next_run(schedule, start) matches Ok(run) && run - start == seconds,
{
    assert(seconds <= 0xffff_ffff);
    assert(seconds * 1_000_000_000 + nanos <= i64::MAX * 1_000_000);
}

/// The prefix with its blank counts once however often it stands in front: a
/// schedule with one more of them names the same runs.
pub proof fn law_repeated_prefix_is_ignored(schedule: Seq<char>, start: i32)
    ensures
        interval_next_run(EVERY_BLANK@ + schedule, start) == interval_next_run(schedule, start),
{
    reveal_strlit("@every ");
    let longer = EVERY_BLANK@ + schedule;
    assert(longer.subrange(0, EVERY_BLANK@.len() as int) =~= EVERY_BLANK@);
    assert(longer.skip(EVERY_BLANK@.len() as int) =~= schedule);
}

/// What the clock may tell is what the call of the clock may return.
proof fn law_clock(now: i64)
    ensures
        clock_tells(now) <==> call_ensures(utc_now, (), now),
{
}

} // verus!
