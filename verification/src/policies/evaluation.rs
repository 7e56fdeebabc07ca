use vstd::prelude::*;

use chrono::{Datelike, Timelike};

use crate::types::TimeSchedule;

verus! {

/// The time of day that chrono's `NaiveTime::parse_from_str` reads from the
/// text with the format, as (seconds from midnight, nanoseconds); none when
/// the text does not parse.
pub uninterp spec fn naive_time_parse(s: Seq<char>, fmt: Seq<char>) -> Option<(u32, u32)>;

/// Trusted: `chrono::NaiveTime::parse_from_str`. The result is the parsed
/// time of day as (seconds from midnight, nanoseconds), named
/// `naive_time_parse`; chrono's times have fewer than 86400 seconds and
/// fewer than 2_000_000_000 nanoseconds (a leap second).
#[verifier::external_body]
fn parse_time_of_day(s: &str, fmt: &str) -> (r: Option<(u32, u32)>)
    ensures
        r == naive_time_parse(s@, fmt@),
        r matches Some(t) ==> t.0 < 86400 && t.1 < 2_000_000_000,
{
    match chrono::NaiveTime::parse_from_str(s, fmt) {
        Ok(t) => Some((t.num_seconds_from_midnight(), t.nanosecond())),
        Err(_) => None,
    }
}

/// Trusted: the system clock read through `std::time::SystemTime::now`
/// (a clock before the Unix epoch is read as the epoch), turned into a UTC
/// date and time by `chrono::DateTime::from_timestamp` (a reading out of
/// chrono's range is read as the epoch), and returned as (day of week counted
/// from Sunday, seconds from midnight, nanoseconds). Which instant is read is
/// not stated; only the ranges that chrono guarantees are claimed: the day is
/// below 7, the seconds below 86400 and the nanoseconds below 2_000_000_000.
#[verifier::external_body]
fn utc_now_day_and_time() -> (r: (u32, u32, u32))
    ensures
        r.0 < 7,
        r.1 < 86400,
        r.2 < 2_000_000_000,
{
    let since_epoch = std::time::SystemTime::now()
        .duration_since(std::time::UNIX_EPOCH)
        .unwrap_or_default();
    let now = chrono::DateTime::from_timestamp(since_epoch.as_secs() as i64, since_epoch.subsec_nanos())
        .unwrap_or_default();
    let time = now.time();
    (now.weekday().num_days_from_sunday(), time.num_seconds_from_midnight(), time.nanosecond())
}

/// Times of day as (seconds from midnight, nanoseconds), in chrono's order.
pub open spec fn time_le(a: (u32, u32), b: (u32, u32)) -> bool {
    a.0 < b.0 || (a.0 == b.0 && a.1 <= b.1)
}

/// 00:00:00
pub open spec fn default_start() -> (u32, u32) {
    (0, 0)
}

/// 23:59:59
pub open spec fn default_end() -> (u32, u32) {
    (86399, 0)
}

/// Whether `now` falls no later than the minute of `end`: schedule times are
/// given to the minute, so an end covers its whole minute.
pub open spec fn within_end_minute(now: (u32, u32), end: (u32, u32)) -> bool {
    now.0 / 60 <= end.0 / 60
}

/// Whether `now` lies in the window from `start` to the end of the minute of
/// `end`, both included; an unparsed start counts as 00:00:00 and an
/// unparsed end as 23:59:59. When the start is after the end, the window runs
/// past midnight.
pub open spec fn in_window(start: Option<(u32, u32)>, end: Option<(u32, u32)>, now: (u32, u32)) -> bool {
    let s = match start {
        Some(t) => t,
        None => default_start(),
    };
    let e = match end {
        Some(t) => t,
        None => default_end(),
    };
    if time_le(s, e) {
        time_le(s, now) && within_end_minute(now, e)
    } else {
        time_le(s, now) || within_end_minute(now, e)
    }
}

fn time_le_exec(a: (u32, u32), b: (u32, u32)) -> (r: bool)
    ensures
        r == time_le(a, b),
{
    a.0 < b.0 || (a.0 == b.0 && a.1 <= b.1)
}

/// Whether `now` lies in the window from the parsed start to the parsed end
/// (see `in_window`).
pub fn is_in_window(start: Option<(u32, u32)>, end: Option<(u32, u32)>, now: (u32, u32)) -> (r: bool)
    ensures
        r == in_window(start, end, now),
{
    let s = match start {
        Some(t) => t,
        None => (0, 0),
    };
    let e = match end {
        Some(t) => t,
        None => (86399, 0),
    };
    let before_end = now.0 / 60 <= e.0 / 60;
    if time_le_exec(s, e) {
        time_le_exec(s, now) && before_end
    } else {
        time_le_exec(s, now) || before_end
    }
}

/// The format of schedule times.
pub open spec fn hour_minute_format() -> Seq<char> {
    "%H:%M"@
}

/// Whether the schedule is active on the day (0 = Sunday) at the time of day
/// (seconds from midnight, nanoseconds): the day is one of its days and the
/// time lies in its window, its start and end read as "HH:MM" by chrono.
pub open spec fn schedule_active(schedule: TimeSchedule, weekday: u8, now: (u32, u32)) -> bool {
    &&& schedule.days_of_week@.contains(weekday)
    &&& in_window(
        naive_time_parse(schedule.start_time@, hour_minute_format()),
        naive_time_parse(schedule.end_time@, hour_minute_format()),
        now,
    )
}

/// Whether the schedule is active on the day (0 = Sunday) at the time of day.
pub fn is_schedule_active_at(schedule: &TimeSchedule, weekday: u8, now: (u32, u32)) -> (r: bool)
    ensures
        r == schedule_active(*schedule, weekday, now),
{
    let mut found = false;
    let mut i: usize = 0;
    while i < schedule.days_of_week.len()
        invariant
            i <= schedule.days_of_week@.len(),
            found == exists|j: int| 0 <= j < i && schedule.days_of_week@[j] == weekday,
        decreases schedule.days_of_week@.len() - i,
    {
        if schedule.days_of_week[i] == weekday {
            found = true;
        }
        i = i + 1;
    }
    if !found {
        return false;
    }
    let fmt = "%H:%M";
    proof {
        assert(fmt@ == hour_minute_format());
    }
    let start = parse_time_of_day(schedule.start_time.as_str(), fmt);
    let end = parse_time_of_day(schedule.end_time.as_str(), fmt);
    is_in_window(start, end, now)
}

/// Whether the schedule is active at a reading of the UTC clock given as
/// (day of week counted from Sunday, seconds from midnight, nanoseconds).
pub fn is_schedule_active_on_reading(schedule: &TimeSchedule, reading: (u32, u32, u32)) -> (r: bool)
    ensures
        r == schedule_active(*schedule, reading.0 as u8, (reading.1, reading.2)),
{
    is_schedule_active_at(schedule, reading.0 as u8, (reading.1, reading.2))
}

/// Whether the schedule is active now, by the UTC clock: the day and the
/// time of day are those of one reading of the clock.
pub fn is_schedule_active(schedule: &TimeSchedule) -> (r: bool)
    ensures
        exists|weekday: u8, now: (u32, u32)|
            weekday < 7 && now.0 < 86400 && now.1 < 2_000_000_000 && r == schedule_active(
                *schedule,
                weekday,
                now,
            ),
{
    is_schedule_active_on_reading(schedule, utc_now_day_and_time())
}

/// A day that is not among the schedule's days is never active.
pub proof fn law_inactive_on_other_days(schedule: TimeSchedule, weekday: u8, now: (u32, u32))
    requires
        !schedule.days_of_week@.contains(weekday),
    ensures
        !schedule_active(schedule, weekday, now),
{
}

/// A window includes both its start and its end.
pub proof fn law_window_bounds_included(s: (u32, u32), e: (u32, u32))
    ensures
        in_window(Some(s), Some(e), s),
        in_window(Some(s), Some(e), e),
{
}

/// A window whose start is after its end runs past midnight: it holds from
/// its start on, and up to the end of the minute of its end.
pub proof fn law_overnight_window(s: (u32, u32), e: (u32, u32), now: (u32, u32))
    requires
        !time_le(s, e),
    ensures
        in_window(Some(s), Some(e), now) == (time_le(s, now) || now.0 / 60 <= e.0 / 60),
{
}

/// A window with neither end readable spans the whole day.
pub proof fn law_unreadable_window_spans_day(now: (u32, u32))
    requires
        now.0 < 86400,
    ensures
        in_window(None, None, now),
{
}

/// A window from 00:00 to 23:59 holds at every time of day.
pub proof fn law_full_day_window(now: (u32, u32))
    requires
        now.0 < 86400,
    ensures
        in_window(Some((0, 0)), Some((86340, 0)), now),
{
}

/// A schedule from "00:00" to "23:59" on every day of the week is active at
/// every moment, given that chrono reads those texts as 00:00:00 and
/// 23:59:00.
pub proof fn law_all_day_schedule_always_active(schedule: TimeSchedule, weekday: u8, now: (u32, u32))
    requires
        naive_time_parse(schedule.start_time@, hour_minute_format()) == Some((0u32, 0u32)),
        naive_time_parse(schedule.end_time@, hour_minute_format()) == Some((86340u32, 0u32)),
        forall|d: u8| d < 7 ==> schedule.days_of_week@.contains(d),
        weekday < 7,
        now.0 < 86400,
    ensures
        schedule_active(schedule, weekday, now),
{
    law_full_day_window(now);
}

} // verus!
