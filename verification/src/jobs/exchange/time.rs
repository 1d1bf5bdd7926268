//! Points in time that stand in an event or in a request.

use crate::entity::time::UtcTime;
use crate::error::{ServiceError, ServiceErrorView, ServiceResult};
use crate::jobs::exchange::EventDate;
use crate::text::concat2;
use chrono::{DateTime, NaiveDateTime, TimeZone};
use chrono_tz::Tz;
use vstd::prelude::*;

verus! {

/// How the start of an event is written.
pub const EVENT_TIME_LAYOUT: &'static str = "%Y-%m-%dT%H:%M:%S%.f";

/// How a point in time is written in a request.
pub const REQUEST_TIME_LAYOUT: &'static str = "%Y-%m-%dT%H:%M:%S";

/// The first second of the calendar of `chrono`, since the Unix epoch.
pub const FIRST_SECOND: i64 = -8_334_601_228_800;

/// The last second of the calendar of `chrono`, since the Unix epoch.
pub const LAST_SECOND: i64 = 8_210_266_876_799;

/// Whether the calendar of `chrono` has a second.
pub open spec fn in_calendar(seconds: i64) -> bool {
    FIRST_SECOND <= seconds <= LAST_SECOND
}

// ---------------------------------------------------------------------------
// Calls into other libraries
// ---------------------------------------------------------------------------

/// Declares the time zone of `chrono_tz`.
#[verifier::external_type_specification]
#[verifier::external_body]
pub struct ExTz(chrono_tz::Tz);

/// Whether `chrono_tz` has a time zone of this name.
pub uninterp spec fn timezone_known(name: Seq<char>) -> bool;

/// What `chrono_tz::Tz::name` says of a time zone.
pub uninterp spec fn timezone_name(timezone: chrono_tz::Tz) -> Seq<char>;

/// The date and time that `chrono::NaiveDateTime::parse_from_str` reads from a
/// text in a layout, as seconds and nanoseconds since the start of 1970 on the
/// same clock, or the text of its error.
pub uninterp spec fn local_time_of(text: Seq<char>, layout: Seq<char>) -> Result<
    (i64, u32),
    Seq<char>,
>;

/// The only point in time at which the clocks of a time zone show a date and
/// time, both as seconds and nanoseconds.
pub uninterp spec fn zoned_time(timezone: Seq<char>, local: (i64, u32)) -> Option<(i64, u32)>;

/// The point in time that `chrono::DateTime::parse_from_rfc3339` reads from a
/// text, in seconds and nanoseconds since the Unix epoch, or the text of its
/// error.
pub uninterp spec fn rfc3339_time(text: Seq<char>) -> Result<(i64, u32), Seq<char>>;

/// How `chrono` writes a second in a layout, by the UTC clock.
pub uninterp spec fn utc_text(seconds: i64, layout: Seq<char>) -> Seq<char>;

/// `FromStr` of `chrono_tz::Tz`: a known name gives the time zone of that name,
/// and the error for any other has one text.
#[verifier::external_body]
fn parse_timezone(name: &str) -> (timezone: Result<Tz, String>)
    ensures
        match timezone {
            Ok(timezone) => timezone_known(name@) && timezone_name(timezone) == name@,
            Err(error) => !timezone_known(name@) && error@ == "failed to parse timezone"@,
        },
{
    name.parse::<Tz>().map_err(|error| error.to_string())
}

/// `chrono::NaiveDateTime::parse_from_str`: the result depends on the text and
/// the layout alone.
#[verifier::external_body]
fn parse_local_time(text: &str, layout: &str) -> (local: Result<(i64, u32), String>)
    ensures
        match local {
            Ok(local) => local_time_of(text@, layout@) == Ok::<(i64, u32), Seq<char>>(local),
            Err(error) => local_time_of(text@, layout@) == Err::<(i64, u32), Seq<char>>(error@),
        },
{
    NaiveDateTime::parse_from_str(text, layout).map(|local| local.and_utc()).map(
        |time| (time.timestamp(), time.timestamp_subsec_nanos()),
    ).map_err(|error| error.to_string())
}

/// `chrono::TimeZone::from_local_datetime` of `chrono_tz::Tz` and `single`: the
/// result depends on the time zone and the local time alone. There is none
/// where the clocks skip the local time or show it twice.
#[verifier::external_body]
fn resolve_local_time(timezone: &Tz, local: (i64, u32)) -> (time: Option<(i64, u32)>)
    ensures
        time == zoned_time(timezone_name(*timezone), local),
{
    let local = DateTime::from_timestamp(local.0, local.1)?.naive_utc();
    timezone.from_local_datetime(&local).single().map(
        |time| (time.timestamp(), time.timestamp_subsec_nanos()),
    )
}

/// `chrono::DateTime::parse_from_rfc3339`: the result depends on the text
/// alone.
#[verifier::external_body]
fn parse_rfc3339(text: &str) -> (time: Result<(i64, u32), String>)
    ensures
        match time {
            Ok(time) => rfc3339_time(text@) == Ok::<(i64, u32), Seq<char>>(time),
            Err(error) => rfc3339_time(text@) == Err::<(i64, u32), Seq<char>>(error@),
        },
{
    DateTime::parse_from_rfc3339(text).map(
        |time| (time.timestamp(), time.timestamp_subsec_nanos()),
    ).map_err(|error| error.to_string())
}

/// `chrono::DateTime::from_timestamp` and `format`: the text depends on the
/// second and the layout alone. The layout is the one of requests, as a layout
/// with an unknown item cannot be written.
#[verifier::external_body]
pub(crate) fn format_utc(seconds: i64, layout: &str) -> (text: String)
    requires
        in_calendar(seconds),
        layout@ == REQUEST_TIME_LAYOUT@,
    ensures
        text@ == utc_text(seconds, layout@),
{
    DateTime::from_timestamp(seconds, 0).unwrap().format(layout).to_string()
}

// ---------------------------------------------------------------------------
// Reading
// ---------------------------------------------------------------------------

/// The point in time with these seconds and nanoseconds.
pub open spec fn time_of(parts: (i64, u32)) -> UtcTime {
    UtcTime { seconds: parts.0, nanos: parts.1 }
}

/// A result with the error as its view.
pub open spec fn time_view(time: ServiceResult<UtcTime>) -> Result<UtcTime, ServiceErrorView> {
    match time {
        Ok(time) => Ok(time),
        Err(error) => Err(error@),
    }
}

/// The point in time at which an event starts.
pub open spec fn event_time(timezone: Seq<char>, date_time: Seq<char>) -> Result<
    UtcTime,
    ServiceErrorView,
> {
    if !timezone_known(timezone) {
        Err(ServiceErrorView::ParseError("Invalid timezone: "@ + "failed to parse timezone"@))
    } else {
        match local_time_of(date_time, EVENT_TIME_LAYOUT@) {
            Err(error) => Err(ServiceErrorView::ParseError("Invalid datetime format: "@ + error)),
            Ok(local) => match zoned_time(timezone, local) {
                Some(time) => Ok(time_of(time)),
                None => Err(ServiceErrorView::ParseError("Invalid timestamp"@)),
            },
        }
    }
}

/// The point in time at which an event was changed.
pub open spec fn modification_time(text: Seq<char>) -> Result<UtcTime, ServiceErrorView> {
    read_outcome(rfc3339_time(text))
}

/// What comes of a date and time that has been read, or could not be.
pub open spec fn read_outcome(parsed: Result<(i64, u32), Seq<char>>) -> Result<
    UtcTime,
    ServiceErrorView,
> {
    match parsed {
        Ok(parts) => Ok(time_of(parts)),
        Err(error) => Err(ServiceErrorView::ParseError("Invalid datetime format: "@ + error)),
    }
}

/// A date and time with its error as a character sequence.
pub open spec fn parts_view(parsed: Result<(i64, u32), String>) -> Result<(i64, u32), Seq<char>> {
    match parsed {
        Ok(parts) => Ok(parts),
        Err(error) => Err(error@),
    }
}

/// Judges a date and time that has been read, or could not be.
pub fn read_time(parsed: Result<(i64, u32), String>) -> (time: ServiceResult<UtcTime>)
    ensures
        time_view(time) == read_outcome(parts_view(parsed)),
{
    match parsed {
        Ok((seconds, nanos)) => Ok(UtcTime { seconds, nanos }),
        Err(error) => Err(
            ServiceError::parse_error(concat2("Invalid datetime format: ", error.as_str()).as_str()),
        ),
    }
}

/// What comes of the date of an event once its time zone is known and its text
/// has been read.
pub fn resolved_time(resolved: Option<(i64, u32)>) -> (time: ServiceResult<UtcTime>)
    ensures
        time_view(time) == match resolved {
            Some(parts) => Ok::<UtcTime, ServiceErrorView>(time_of(parts)),
            None => Err(ServiceErrorView::ParseError("Invalid timestamp"@)),
        },
{
    match resolved {
        Some((seconds, nanos)) => Ok(UtcTime { seconds, nanos }),
        None => Err(ServiceError::parse_error("Invalid timestamp")),
    }
}

/// Reads the point in time at which an event starts.
pub fn parse_event_time(start: &EventDate) -> (time: ServiceResult<UtcTime>)
    ensures
        time_view(time) == event_time(start.timezone@, start.date_time@),
{
    let timezone: Tz = match parse_timezone(start.timezone.as_str()) {
        Ok(timezone) => timezone,
        Err(error) => {
            return Err(
                ServiceError::parse_error(concat2("Invalid timezone: ", error.as_str()).as_str()),
            );
        },
    };
    match read_time(parse_local_time(start.date_time.as_str(), EVENT_TIME_LAYOUT)) {
        Ok(local) => resolved_time(resolve_local_time(&timezone, (local.seconds, local.nanos))),
        Err(error) => Err(error),
    }
}

/// Reads the point in time at which an event was changed.
pub fn parse_modification_time(text: &str) -> (time: ServiceResult<UtcTime>)
    ensures
        time_view(time) == modification_time(text@),
{
    read_time(parse_rfc3339(text))
}

} // verus!
