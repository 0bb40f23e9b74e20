//! The clock: the time in seconds since the start of 1970, and the day in
//! UTC on which a second falls.

use vstd::prelude::*;
use chrono::Datelike;
use std::time::{SystemTime, UNIX_EPOCH};
use crate::date::{days_in, Date, MAX_YEAR};

verus! {

/// A point in time: its second, and the day in UTC on which it falls.
#[derive(Clone, Copy, Debug, PartialEq, Eq, Structural)]
pub struct Moment {
    pub seconds: u64,
    pub today: Date,
}

/// Seconds to the day.
pub const DAY: u64 = 86_400;

/// The day after the day `day` of the month `month` of the year `year`.
pub open spec fn day_after(year: int, month: int, day: int) -> (int, int, int) {
    if day < days_in(year, month) {
        (year, month, day + 1)
    } else if month < 12 {
        (year, month + 1, 1)
    } else {
        (year + 1, 1, 1)
    }
}

/// The day that lies `n` days after the first day of 1970, as year, month
/// and day.
pub open spec fn nth_day(n: nat) -> (int, int, int)
    decreases n,
{
    if n == 0 {
        (1970, 1, 1)
    } else {
        let (year, month, day) = nth_day((n - 1) as nat);
        day_after(year, month, day)
    }
}

/// The day in UTC on which the second `seconds` after the start of 1970
/// falls: a day lasts `DAY` seconds. `None` for a second that falls after
/// the year `MAX_YEAR`.
pub open spec fn day_of(seconds: nat) -> Option<Date> {
    let (year, month, day) = nth_day(seconds / (DAY as nat));
    if year <= MAX_YEAR {
        Some(Date { year: year as i32, month: month as u32, day: day as u32 })
    } else {
        None
    }
}

/// The day of a second that fits the clock's signed count.
pub open spec fn day_at_spec(seconds: u64) -> Option<Date> {
    if seconds <= i64::MAX {
        day_of(seconds as nat)
    } else {
        None
    }
}

/// Every day counted from the first day of 1970 is a day of the calendar.
pub proof fn lemma_nth_day(n: nat)
    ensures
        ({
            let (year, month, day) = nth_day(n);
            &&& 1970 <= year
            &&& 1 <= month <= 12
            &&& 1 <= day <= days_in(year, month)
        }),
    decreases n,
{
    if n > 0 {
        lemma_nth_day((n - 1) as nat);
    }
}

/// Trusted: `std::time::SystemTime::now` with `duration_since` gives the
/// whole seconds since the start of 1970, or fails where the system clock
/// stands before it. Nothing is claimed of the number.
#[verifier::external_body]
fn unix_seconds() -> (r: Option<u64>) {
    match SystemTime::now().duration_since(UNIX_EPOCH) {
        Ok(elapsed) => Some(elapsed.as_secs()),
        Err(_) => None,
    }
}

/// Trusted: `chrono::DateTime::from_timestamp` counts seconds from the
/// start of 1970 in UTC, 86 400 to the day, in the proleptic Gregorian
/// calendar. For a count that is not negative it gives the day that lies
/// so many whole days after 1 January 1970, and none where that day lies
/// after the last year that chrono covers, `MAX_YEAR`.
#[verifier::external_body]
fn utc_day(seconds: i64) -> (r: Option<Date>)
    requires
        seconds >= 0,
    ensures
        r == day_of(seconds as nat),
{
    match chrono::DateTime::from_timestamp(seconds, 0) {
        Some(t) => {
            let d = t.date_naive();
            Some(Date { year: d.year(), month: d.month(), day: d.day() })
        },
        None => None,
    }
}

/// The day in UTC on which a second falls.
pub fn day_at(seconds: u64) -> (r: Option<Date>)
    ensures
        r == day_at_spec(seconds),
        r matches Some(d) ==> d.valid(),
{
    if seconds <= 0x7fff_ffff_ffff_ffff {
        proof {
            lemma_nth_day(seconds as nat / (DAY as nat));
        }
        utc_day(seconds as i64)
    } else {
        None
    }
}

/// The seconds that the system clock shows, if it shows a time from 1970
/// on.
pub fn seconds_now() -> (r: Option<u64>) {
    unix_seconds()
}

/// The present moment, if the system clock shows a time that falls on a
/// day.
pub fn now() -> (r: Option<Moment>)
    ensures
        r matches Some(m) ==> day_at_spec(m.seconds) == Some(m.today) && m.today.valid(),
{
    moment_of(unix_seconds())
}

/// The moment that a reading of the clock stands for: the second that was
/// read with the day on which it falls; none where nothing was read, and
/// none where the second falls on no day.
pub open spec fn moment_spec(reading: Option<u64>) -> Option<Moment> {
    match reading {
        Some(seconds) => match day_at_spec(seconds) {
            Some(today) => Some(Moment { seconds, today }),
            None => None,
        },
        None => None,
    }
}

/// Whether a moment, where there is one, holds the day on which its
/// second falls.
pub open spec fn consistent(clock: Option<Moment>) -> bool {
    clock matches Some(m) ==> day_at_spec(m.seconds) == Some(m.today)
}

/// The moment that a reading of the clock stands for.
pub fn moment_of(reading: Option<u64>) -> (r: Option<Moment>)
    ensures
        r == moment_spec(reading),
        r matches Some(m) ==> m.today.valid(),
{
    match reading {
        Some(seconds) => match day_at(seconds) {
            Some(today) => Some(Moment { seconds, today }),
            None => None,
        },
        None => None,
    }
}

} // verus!
