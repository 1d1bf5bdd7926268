//! Laws of the next run of a task.

use crate::entity::task::Task;
use crate::executor::schedule::{
    calculate_cron_next_run, calculate_interval_next_run, calculate_next_run,
    calculate_next_run_at, clock_tells, cron_next, cron_run, cron_valid, duration_of, interval_run,
    law_repeated_prefix_is_ignored, next_run, run_view, ScheduleError, ScheduleErrorView, EVERY_BLANK,
};
use crate::laws::exchange::lemma_low_bits;
use crate::text::{begins_with, without_leading};
use vstd::prelude::*;

verus! {

/// The later of two points in time.
pub open spec fn later(left: int, right: int) -> int {
    if left >= right {
        left
    } else {
        right
    }
}

/// A schedule is `@every`, a blank and a rest, the rest not beginning so again.
pub open spec fn repeats_after(schedule: Seq<char>, rest: Seq<char>) -> bool {
    &&& schedule == "@every "@ + rest
    &&& forall|shorter: Seq<char>| rest != #[trigger] ("@every "@ + shorter)
}

/// What is left of such a schedule is its rest.
proof fn lemma_rest(schedule: Seq<char>, rest: Seq<char>)
    requires
        repeats_after(schedule, rest),
    ensures
        without_leading(schedule, EVERY_BLANK@) == rest,
        begins_with(schedule, "@every"@),
{
    reveal_strlit("@every ");
    reveal_strlit("@every");
    let prefix = "@every "@;
    assert(EVERY_BLANK@ == prefix);
    assert(schedule.subrange(0, prefix.len() as int) =~= prefix);
    assert(schedule.skip(prefix.len() as int) =~= rest);
    if begins_with(rest, prefix) {
        assert(rest =~= prefix + rest.skip(prefix.len() as int));
    }
    assert(without_leading(rest, prefix) == rest);
    assert(schedule.subrange(0, "@every"@.len() as int) =~= "@every"@) by {
        assert("@every"@ =~= prefix.take(6));
    }
}

/// A task that repeats after a time of `seconds` whole seconds runs that many
/// seconds after its start, or now where that is past.
pub proof fn law_repeated_task_runs_after_its_interval(
    task: &Task,
    now: i64,
    rest: Seq<char>,
    seconds: u64,
    nanos: u32,
    run: Result<i32, ScheduleError>,
)
    requires
        task.schedule matches Some(schedule) && repeats_after(schedule@, rest),
        duration_of(rest) == Ok::<(u64, u32), Seq<char>>((seconds, nanos)),
        nanos < 1_000_000_000,
        task.start_at + seconds <= i32::MAX,
        i32::MIN <= now <= i32::MAX,
        call_ensures(calculate_next_run_at, (task, now), run),
    ensures
        run matches Ok(run) && run == later(task.start_at + seconds, now as int),
{
    lemma_rest((task.schedule->0)@, rest);
    assert(seconds <= 0xffff_ffff);
    assert(seconds * 1_000_000_000 + nanos <= i64::MAX * 1_000_000);
}

/// Of a schedule that begins with `@every`, the length of time is read from what is
/// left when every leading `@every` with its blank is removed; the task runs that
/// much after its start, or now where that is past.
pub proof fn law_repeated_task(
    task: &Task,
    now: i64,
    seconds: u64,
    nanos: u32,
    run: Result<i32, ScheduleError>,
)
    requires
        task.schedule matches Some(schedule) && begins_with(schedule@, "@every"@),
        nanos < 1_000_000_000,
        call_ensures(calculate_next_run_at, (task, now), run),
    ensures
        ({
            let rest = without_leading((task.schedule->0)@, "@every "@);
            &&& duration_of(rest) == Ok::<(u64, u32), Seq<char>>((seconds, nanos))
                && task.start_at + seconds <= i32::MAX && i32::MIN <= now <= i32::MAX ==> (
            run matches Ok(run) && run == later(task.start_at + seconds, now as int))
            &&& duration_of(rest) matches Err(reason) ==> (run matches Err(error) && error@
                == ScheduleErrorView::Duration(reason))
        }),
{
    assert(seconds <= 0xffff_ffff ==> seconds * 1_000_000_000 + nanos <= i64::MAX * 1_000_000);
}

/// A repeat time that cannot be read is the error, with its whole reason.
pub proof fn law_unreadable_interval(
    task: &Task,
    now: i64,
    rest: Seq<char>,
    reason: Seq<char>,
    run: Result<i32, ScheduleError>,
)
    requires
        task.schedule matches Some(schedule) && repeats_after(schedule@, rest),
        duration_of(rest) == Err::<(u64, u32), Seq<char>>(reason),
        call_ensures(calculate_next_run_at, (task, now), run),
    ensures
        run matches Err(error) && error@ == ScheduleErrorView::Duration(reason),
{
    lemma_rest((task.schedule->0)@, rest);
}

/// A schedule that does not begin with `@every` is a cron schedule: the task runs
/// when that says next after its start, or now where that is past.
pub proof fn law_cron_task(task: &Task, now: i64, run: Result<i32, ScheduleError>)
    requires
        task.schedule matches Some(schedule) && forall|rest: Seq<char>|
            schedule@ != #[trigger] ("@every"@ + rest),
        i32::MIN <= now <= i32::MAX,
        call_ensures(calculate_next_run_at, (task, now), run),
    ensures
        ({
            let schedule = (task.schedule->0)@;
            if !cron_valid(schedule) {
                run matches Err(error) && error@ == ScheduleErrorView::CronSyntax
            } else {
                match cron_next(schedule, task.start_at) {
                    Some(next) => i32::MIN <= next <= i32::MAX ==> (run matches Ok(run) && run
                        == later(next as int, now as int)),
                    None => run matches Err(error) && error@ == ScheduleErrorView::NoCronRun,
                }
            }
        }),
{
    let schedule = (task.schedule->0)@;
    if begins_with(schedule, "@every"@) {
        assert(schedule =~= "@every"@ + schedule.skip("@every"@.len() as int));
    }
}

/// A task without a schedule runs at its start, or now where that is past.
pub proof fn law_task_without_schedule(task: &Task, now: i64, run: Result<i32, ScheduleError>)
    requires
        task.schedule is None,
        i32::MIN <= now <= i32::MAX,
        call_ensures(calculate_next_run_at, (task, now), run),
    ensures
        run matches Ok(run) && run == later(task.start_at as int, now as int),
{
}

/// A later start makes a repeated task that is not overdue run as much later.
pub proof fn law_later_start_runs_later(
    task: &Task,
    moved: &Task,
    now: i64,
    rest: Seq<char>,
    seconds: u64,
    nanos: u32,
    run: Result<i32, ScheduleError>,
    moved_run: Result<i32, ScheduleError>,
)
    requires
        task.schedule matches Some(schedule) && repeats_after(schedule@, rest),
        moved.schedule == task.schedule,
        duration_of(rest) == Ok::<(u64, u32), Seq<char>>((seconds, nanos)),
        nanos < 1_000_000_000,
        task.start_at <= moved.start_at,
        moved.start_at + seconds <= i32::MAX,
        i32::MIN <= now <= task.start_at,
        call_ensures(calculate_next_run_at, (task, now), run),
        call_ensures(calculate_next_run_at, (moved, now), moved_run),
    ensures
        run is Ok && moved_run is Ok,
        moved_run->Ok_0 - run->Ok_0 == moved.start_at - task.start_at,
{
    law_repeated_task_runs_after_its_interval(task, now, rest, seconds, nanos, run);
    law_repeated_task_runs_after_its_interval(moved, now, rest, seconds, nanos, moved_run);
}

/// Where the time does not fit 32 bits, its low bits are taken: a task without a
/// schedule runs at the later of its start and those.
pub proof fn law_low_bits_of_the_next_run(task: &Task, now: i64, run: Result<i32, ScheduleError>)
    requires
        task.schedule is None,
        call_ensures(calculate_next_run_at, (task, now), run),
    ensures
        run matches Ok(run) && exists|present: i32|
            #![trigger later(task.start_at as int, present as int)]
            (now - present) % 0x1_0000_0000 == 0 && run == later(
                task.start_at as int,
                present as int,
            ),
{
    lemma_low_bits(now);
    let present = now as i32;
    assert(run->Ok_0 == later(task.start_at as int, present as int));
}

/// By the clock of the machine, a task without a schedule runs at its start or at
/// the time that the clock told, and a repeated one after its interval or at that
/// time.
pub proof fn law_next_run_by_the_clock(
    task: &Task,
    rest: Seq<char>,
    seconds: u64,
    nanos: u32,
    run: Result<i32, ScheduleError>,
)
    requires
        nanos < 1_000_000_000,
        call_ensures(calculate_next_run, (task,), run),
    ensures
        exists|now: i64| #[trigger]
            clock_tells(now) && (i32::MIN <= now <= i32::MAX ==> {
                &&& task.schedule is None ==> (run matches Ok(run) && run == later(
                    task.start_at as int,
                    now as int,
                ))
                &&& task.schedule is Some && repeats_after((task.schedule->0)@, rest) && duration_of(
                    rest,
                ) == Ok::<(u64, u32), Seq<char>>((seconds, nanos)) && task.start_at + seconds
                    <= i32::MAX ==> (run matches Ok(run) && run == later(
                    task.start_at + seconds,
                    now as int,
                ))
            }),
{
    if task.schedule is Some && repeats_after((task.schedule->0)@, rest) {
        lemma_rest((task.schedule->0)@, rest);
    }
    assert(seconds <= 0xffff_ffff ==> seconds * 1_000_000_000 + nanos <= i64::MAX * 1_000_000);
}

/// An interval is added to the start; the sum keeps its low 32 bits. A length of
/// time of more than 2^63 - 1 milliseconds is refused.
pub proof fn law_interval(
    duration: Result<(u64, u32), String>,
    start_at: i32,
    run: Result<i32, ScheduleError>,
)
    requires
        duration matches Ok((_, nanos)) ==> nanos < 1_000_000_000,
        call_ensures(interval_run, (duration, start_at), run),
    ensures
        match duration {
            Ok((seconds, nanos)) => if seconds * 1_000_000_000 + nanos
                <= 9_223_372_036_854_775_807_000_000 {
                run matches Ok(run) && (start_at + seconds - run) % 0x1_0000_0000 == 0 && (start_at
                    + seconds <= i32::MAX ==> run == start_at + seconds)
            } else {
                run matches Err(error) && error@ == ScheduleErrorView::DurationRange
            },
            Err(reason) => run matches Err(error) && error@ == ScheduleErrorView::Duration(
                reason@,
            ),
        },
{
    if duration is Ok {
        let seconds = (duration->Ok_0).0;
        if seconds <= 0x7fff_ffff_0000_0000 {
            lemma_low_bits((start_at + seconds) as i64);
        }
    }
}

/// The run of an interval schedule is that of the length of time in it.
pub proof fn law_interval_schedule(
    schedule: &str,
    rest: Seq<char>,
    duration: Result<(u64, u32), String>,
    start_at: i32,
    run: Result<i32, ScheduleError>,
    expected: Result<i32, ScheduleError>,
)
    requires
        repeats_after(schedule@, rest) || (schedule@ == rest && forall|shorter: Seq<char>|
            rest != #[trigger] ("@every "@ + shorter)),
        duration_of(rest) == match duration {
            Ok(parts) => Ok::<(u64, u32), Seq<char>>(parts),
            Err(reason) => Err(reason@),
        },
        call_ensures(calculate_interval_next_run, (schedule, start_at), run),
        call_ensures(interval_run, (duration, start_at), expected),
    ensures
        match (run, expected) {
            (Ok(run), Ok(expected)) => run == expected,
            (Err(run), Err(expected)) => run@ == expected@,
            _ => false,
        },
{
    if repeats_after(schedule@, rest) {
        lemma_rest(schedule@, rest);
    } else {
        let prefix = "@every "@;
        if begins_with(rest, prefix) {
            assert(rest =~= prefix + rest.skip(prefix.len() as int));
        }
    }
}

/// A cron run is the point in time that the schedule names, or its low 32 bits; a
/// schedule that cannot be read or names no point in time has none.
pub proof fn law_cron(
    schedule: &str,
    start_at: i32,
    run: Result<i32, ScheduleError>,
    next: Result<Option<i64>, ()>,
    judged: Result<i32, ScheduleError>,
)
    requires
        call_ensures(calculate_cron_next_run, (schedule, start_at), run),
        call_ensures(cron_run::<()>, (next,), judged),
    ensures
        !cron_valid(schedule@) ==> (run matches Err(error) && error@
            == ScheduleErrorView::CronSyntax),
        cron_valid(schedule@) ==> match cron_next(schedule@, start_at) {
            Some(next) => run matches Ok(run) && (next - run) % 0x1_0000_0000 == 0 && (next
                <= i32::MAX ==> run == next && run > start_at),
            None => run matches Err(error) && error@ == ScheduleErrorView::NoCronRun,
        },
        match next {
            Ok(Some(next)) => judged matches Ok(run) && (next - run) % 0x1_0000_0000 == 0 && (
            i32::MIN <= next <= i32::MAX ==> run == next),
            Ok(None) => judged matches Err(error) && error@ == ScheduleErrorView::NoCronRun,
            Err(_) => judged matches Err(error) && error@ == ScheduleErrorView::CronSyntax,
        },
{
    if cron_next(schedule@, start_at) is Some {
        lemma_low_bits(cron_next(schedule@, start_at)->0);
    }
    if next is Ok && next->Ok_0 is Some {
        lemma_low_bits(next->Ok_0->0);
    }
}

/// A run is the scheduled one, or the low 32 bits of the time where those are
/// later; where nothing is scheduled for a fault, the fault is told.
pub open spec fn follows(
    scheduled: Result<i32, ScheduleError>,
    now: i64,
    run: Result<i32, ScheduleError>,
) -> bool {
    match scheduled {
        Ok(scheduled) => run matches Ok(run) && exists|present: i32|
            #![trigger later(scheduled as int, present as int)]
            (now - present) % 0x1_0000_0000 == 0 && run == later(scheduled as int, present as int),
        Err(fault) => run matches Err(error) && error@ == fault@,
    }
}

/// The next run of a task with a schedule is the one that its schedule names, or
/// now where that is past: an interval if the schedule begins with `@every`, and
/// else a cron schedule. Of the time the low 32 bits are taken.
pub proof fn law_schedule_decides(
    task: &Task,
    now: i64,
    schedule: &str,
    interval: Result<i32, ScheduleError>,
    cron: Result<i32, ScheduleError>,
    run: Result<i32, ScheduleError>,
)
    requires
        task.schedule matches Some(text) && text@ == schedule@,
        call_ensures(calculate_interval_next_run, (schedule, task.start_at), interval),
        call_ensures(calculate_cron_next_run, (schedule, task.start_at), cron),
        call_ensures(calculate_next_run_at, (task, now), run),
    ensures
        (exists|rest: Seq<char>| schedule@ == #[trigger] ("@every"@ + rest)) ==> follows(
            interval,
            now,
            run,
        ),
        (forall|rest: Seq<char>| schedule@ != #[trigger] ("@every"@ + rest)) ==> follows(
            cron,
            now,
            run,
        ),
{
    lemma_low_bits(now);
    let present: i32 = #[verifier::truncate] (now as i32);
    if begins_with(schedule@, "@every"@) {
        assert(schedule@ =~= "@every"@ + schedule@.skip("@every"@.len() as int));
        if interval is Ok {
            assert(run->Ok_0 == later(interval->Ok_0 as int, present as int));
        }
        assert(follows(interval, now, run));
    } else {
        assert forall|rest: Seq<char>| schedule@ != #[trigger] ("@every"@ + rest) by {
            if schedule@ == "@every"@ + rest {
                assert(schedule@.subrange(0, "@every"@.len() as int) =~= "@every"@);
            }
        }
        if cron is Ok {
            assert(run->Ok_0 == later(cron->Ok_0 as int, present as int));
        }
    }
}

/// The reasons are told in words, with the whole text of another library's error.
pub proof fn law_schedule_messages(error: &ScheduleError, message: String)
    requires
        call_ensures(ScheduleError::message, (error,), message),
    ensures
        message@ == match *error {
            ScheduleError::InvalidTimestamp => "Invalid timestamp"@,
            ScheduleError::Duration(reason) => "Failed to parse duration: "@ + reason@,
            ScheduleError::DurationRange => "Failed to convert duration"@,
            ScheduleError::CronSyntax => "Failed to parse cron schedule"@,
            ScheduleError::NoCronRun => "Failed to calculate next cron run"@,
        },
{
}

/// By the clock of the machine the next run is the one at the time that the clock
/// told.
pub proof fn law_next_run_at_the_time_of_the_clock(task: &Task, run: Result<i32, ScheduleError>)
    requires
        call_ensures(calculate_next_run, (task,), run),
    ensures
        exists|now: i64| #[trigger]
            clock_tells(now) && forall|expected: Result<i32, ScheduleError>| #[trigger]
                call_ensures(calculate_next_run_at, (task, now), expected) ==> match (
                    expected,
                    run,
                ) {
                    (Ok(expected), Ok(run)) => run == expected,
                    (Err(expected), Err(error)) => error@ == expected@,
                    _ => false,
                },
{
    let now = choose|now: i64|
        clock_tells(now) && run_view(run) == #[trigger] next_run(*task, now);
    assert(clock_tells(now));
}

/// One more `@every` with its blank in front makes no difference to an interval.
pub proof fn law_one_more_prefix(
    schedule: &str,
    longer: &str,
    start_at: i32,
    run: Result<i32, ScheduleError>,
    longer_run: Result<i32, ScheduleError>,
)
    requires
        longer@ == "@every "@ + schedule@,
        call_ensures(calculate_interval_next_run, (schedule, start_at), run),
        call_ensures(calculate_interval_next_run, (longer, start_at), longer_run),
    ensures
        match (run, longer_run) {
            (Ok(run), Ok(longer_run)) => longer_run == run,
            (Err(error), Err(longer_error)) => longer_error@ == error@,
            _ => false,
        },
{
    law_repeated_prefix_is_ignored(schedule@, start_at);
}

} // verus!
