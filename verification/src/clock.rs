//! Instants and calendar dates.

use vstd::prelude::*;

verus! {

/// A sampled instant: the seconds since the Unix epoch in UTC, and how far
/// local time was ahead of UTC then, in seconds.
#[derive(Debug, Copy, Clone, PartialEq, Eq)]
pub struct Instant {
    pub utc_seconds: i64,
    pub offset_seconds: i32,
}

/// A calendar date.
#[derive(Debug, Copy, Clone, PartialEq, Eq)]
pub struct Date {
    pub year: i32,
    pub month: u8,
    pub day: u8,
}

/// The year, month and day of the proleptic Gregorian calendar on which the
/// given second since the Unix epoch falls, where the calendar in use can
/// represent it.
pub uninterp spec fn civil_date(seconds: int) -> Option<(int, int, int)>;

/// Calls `chrono::DateTime::from_timestamp` with no nanoseconds and reads
/// year, month and day off the result. That function gives `None` for
/// seconds outside the range chrono can represent and does not fail
/// otherwise. The contract only names the result.
#[verifier::external_body]
pub(crate) fn civil(seconds: i64) -> (date: Option<(i32, u32, u32)>)
    ensures
        match date {
            Some((year, month, day)) => civil_date(seconds as int) == Some(
                (year as int, month as int, day as int),
            ),
            None => civil_date(seconds as int) is None,
        },
{
    match chrono::DateTime::from_timestamp(seconds, 0) {
        Some(at) => {
            let day = at.naive_utc();
            Some(
                (
                    chrono::Datelike::year(&day),
                    chrono::Datelike::month(&day),
                    chrono::Datelike::day(&day),
                ),
            )
        },
        None => None,
    }
}

/// Calls `chrono::Local::now` and hands back its timestamp and the offset
/// of local time it carries. Nothing is claimed of the result: it is the
/// wall clock's. (chrono gives up only where the system clock stands before
/// 1970.)
#[verifier::external_body]
pub(crate) fn local_now() -> (now: Instant) {
    let now = chrono::Local::now();
    Instant { utc_seconds: now.timestamp(), offset_seconds: now.offset().local_minus_utc() }
}

/// The date on which the given second since the epoch falls, if it can be
/// represented.
pub open spec fn date_of(seconds: int) -> Option<Date> {
    if i64::MIN <= seconds <= i64::MAX {
        match civil_date(seconds) {
            Some((year, month, day)) => if i32::MIN <= year <= i32::MAX && 0 <= month <= u8::MAX
                && 0 <= day <= u8::MAX {
                Some(Date { year: year as i32, month: month as u8, day: day as u8 })
            } else {
                None
            },
            None => None,
        }
    } else {
        None
    }
}

/// The second whose date is asked for: local time at the instant, or UTC
/// moved by a number of hours.
pub open spec fn shifted(now: Instant, offset: Option<i64>) -> int {
    match offset {
        None => now.utc_seconds + now.offset_seconds,
        Some(hours) => now.utc_seconds + hours * 3600,
    }
}

/// The calendar date at an instant: in local time without an offset, else
/// in UTC moved by `offset` hours. `None` where the date cannot be
/// represented.
pub fn date_at(now: Instant, offset: Option<i64>) -> (date: Option<Date>)
    ensures
        date == date_of(shifted(now, offset)),
{
    let wide: i128 = match offset {
        None => now.utc_seconds as i128 + now.offset_seconds as i128,
        Some(hours) => now.utc_seconds as i128 + hours as i128 * 3600,
    };
    let seconds = if -9223372036854775808 <= wide && wide <= 9223372036854775807 {
        Some(wide as i64)
    } else {
        None
    };
    match seconds {
        Some(seconds) => match civil(seconds) {
            Some((year, month, day)) => {
                if month <= 255 && day <= 255 {
                    Some(Date { year, month: month as u8, day: day as u8 })
                } else {
                    None
                }
            },
            None => None,
        },
        None => None,
    }
}

/// A calendar date with a time of day.
#[derive(Debug, Copy, Clone, PartialEq, Eq)]
pub struct DateTime {
    pub date: Date,
    pub hour: u8,
    pub minute: u8,
    pub second: u8,
}

/// The second of its day on which a second since the epoch falls.
pub open spec fn second_of_day(seconds: int) -> int {
    seconds % 86400
}

/// The date and the time of day in UTC of a second since the epoch, if the
/// date can be represented.
pub open spec fn datetime_of(seconds: int) -> Option<DateTime> {
    match date_of(seconds) {
        Some(date) => Some(
            DateTime {
                date,
                hour: (second_of_day(seconds) / 3600) as u8,
                minute: (second_of_day(seconds) % 3600 / 60) as u8,
                second: (second_of_day(seconds) % 60) as u8,
            },
        ),
        None => None,
    }
}

/// The date and time in UTC at an instant.
pub fn utc_datetime(now: Instant) -> (stamp: Option<DateTime>)
    ensures
        stamp == datetime_of(now.utc_seconds as int),
{
    let date = match date_at(now, Some(0)) {
        Some(date) => date,
        None => {
            return None;
        },
    };
    let days = now.utc_seconds / 86400;
    let rest = now.utc_seconds - days * 86400;
    let rest = if rest < 0 {
        rest + 86400
    } else {
        rest
    };
    assert(rest == second_of_day(now.utc_seconds as int));
    Some(
        DateTime {
            date,
            hour: (rest / 3600) as u8,
            minute: (rest % 3600 / 60) as u8,
            second: (rest % 60) as u8,
        },
    )
}

/// The current date and time in UTC, by the wall clock.
///
/// The clock is sampled once, and what is handed back is the date and time
/// of the instant it gave: `None` only where that instant has no date that
/// can be represented. Which instant the clock gives is not for this
/// function to say.
pub fn utc_now() -> (stamp: Option<DateTime>)
    ensures
        exists|now: Instant| stamp == #[trigger] datetime_of(now.utc_seconds as int),
        stamp is Some ==> stamp->0.hour < 24 && stamp->0.minute < 60 && stamp->0.second < 60,
{
    let now = local_now();
    let stamp = utc_datetime(now);
    assert(stamp == datetime_of(now.utc_seconds as int));
    stamp
}

} // verus!
