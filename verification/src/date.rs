//! Calendar dates and times of day, as the replies show them and as the
//! commands take them.

use vstd::prelude::*;
use vstd::string::*;
use chrono::Datelike;
use std::str::FromStr;
use crate::decimal::mag;
use crate::digits::{digits_of, padded, push_digits, push_padded};

verus! {

/// The first year a date may lie in.
pub const MIN_YEAR: i32 = -262_143;

/// The last year a date may lie in.
pub const MAX_YEAR: i32 = 262_142;

/// A day of the proleptic Gregorian calendar.
#[derive(Clone, Copy, Debug, PartialEq, Eq, Structural)]
pub struct Date {
    pub year: i32,
    pub month: u32,
    pub day: u32,
}

/// A date and a time of day, to the second.
#[derive(Clone, Copy, Debug, PartialEq, Eq, Structural)]
pub struct DateTime {
    pub date: Date,
    pub hour: u32,
    pub minute: u32,
    pub second: u32,
}

/// Whether `year` is a leap year.
pub open spec fn is_leap(year: int) -> bool {
    year % 4 == 0 && (year % 100 != 0 || year % 400 == 0)
}

/// The number of days of a month; zero for a month that does not exist.
pub open spec fn days_in(year: int, month: int) -> int {
    if month == 2 {
        if is_leap(year) {
            29
        } else {
            28
        }
    } else if month == 4 || month == 6 || month == 9 || month == 11 {
        30
    } else if 1 <= month <= 12 {
        31
    } else {
        0
    }
}

/// The day before `d`. The first day of the first year has none before it
/// and is its own result.
pub open spec fn day_before(d: Date) -> Date {
    if d.day > 1 {
        Date { year: d.year, month: d.month, day: (d.day - 1) as u32 }
    } else if d.month > 1 {
        Date {
            year: d.year,
            month: (d.month - 1) as u32,
            day: days_in(d.year as int, d.month - 1) as u32,
        }
    } else if d.year > MIN_YEAR {
        Date { year: (d.year - 1) as i32, month: 12, day: 31 }
    } else {
        d
    }
}

/// How a year is written: four digits from 0 to 9999; otherwise a sign and
/// at least four digits.
pub open spec fn year_text(year: int) -> Seq<char> {
    if 0 <= year <= 9999 {
        padded(year as nat, 4)
    } else {
        seq![if year < 0 {
            '-'
        } else {
            '+'
        }] + if mag(year) <= 9999 {
            padded(mag(year), 4)
        } else {
            digits_of(mag(year))
        }
    }
}

/// How a date is written: year, month and day with hyphens between, the
/// month and the day in two digits.
pub open spec fn date_text(d: Date) -> Seq<char> {
    year_text(d.year as int) + seq!['-'] + padded(d.month as nat, 2) + seq!['-'] + padded(
        d.day as nat,
        2,
    )
}

/// How a date and time is written: the date, a blank, and hour, minute and
/// second in two digits each with colons between.
pub open spec fn date_time_text(t: DateTime) -> Seq<char> {
    date_text(t.date) + seq![' '] + padded(t.hour as nat, 2) + seq![':'] + padded(
        t.minute as nat,
        2,
    ) + seq![':'] + padded(t.second as nat, 2)
}

/// The date that a text writes, as `chrono::NaiveDate::from_str` reads it;
/// `None` where it reads none.
pub uninterp spec fn date_of(s: Seq<char>) -> Option<Date>;

impl Date {
    /// Whether the date exists in the calendar and lies in a year from
    /// `MIN_YEAR` to `MAX_YEAR`.
    pub open spec fn valid(self) -> bool {
        &&& MIN_YEAR <= self.year <= MAX_YEAR
        &&& 1 <= self.month <= 12
        &&& 1 <= self.day <= days_in(self.year as int, self.month as int)
    }

    /// The date of the given year, month and day, if there is such a day.
    pub fn new(year: i32, month: u32, day: u32) -> (r: Option<Date>)
        ensures
            r == if (Date { year, month, day }).valid() {
                Some(Date { year, month, day })
            } else {
                None::<Date>
            },
    {
        if MIN_YEAR <= year && year <= MAX_YEAR && 1 <= month && month <= 12 && 1 <= day && day
            <= days_in_month(year, month) {
            Some(Date { year, month, day })
        } else {
            None
        }
    }

    /// The day before this one.
    pub fn previous(&self) -> (r: Date)
        ensures
            r == day_before(*self),
    {
        if self.day > 1 {
            Date { year: self.year, month: self.month, day: self.day - 1 }
        } else if self.month > 1 {
            Date {
                year: self.year,
                month: self.month - 1,
                day: days_in_month(self.year, self.month - 1),
            }
        } else if self.year > MIN_YEAR {
            Date { year: self.year - 1, month: 12, day: 31 }
        } else {
            *self
        }
    }

    /// Writes the date as in "2015-09-05".
    pub fn to_text(&self) -> (r: String)
        ensures
            r@ == date_text(*self),
    {
        let mut out = String::new();
        self.write(&mut out);
        out
    }

    /// Appends the date to `out`.
    pub fn write(&self, out: &mut String)
        ensures
            final(out)@ == old(out)@ + date_text(*self),
    {
        let year = self.year;
        if 0 <= year && year <= 9999 {
            push_padded(out, year as u64, 4);
        } else {
            let wide: i64 = year as i64;
            let m: u64 = if wide < 0 {
                out.push('-');
                (-wide) as u64
            } else {
                out.push('+');
                wide as u64
            };
            if m <= 9999 {
                push_padded(out, m, 4);
            } else {
                push_digits(out, m);
            }
        }
        out.push('-');
        push_padded(out, self.month as u64, 2);
        out.push('-');
        push_padded(out, self.day as u64, 2);
    }

    /// Reads a date written as year, month and day with hyphens between.
    /// A day of the calendar written as `to_text` writes it is read as
    /// that day.
    pub fn parse(token: &str) -> (r: Option<Date>)
        ensures
            r == date_of(token@),
            r matches Some(d) ==> d.valid(),
            forall|d: Date| d.valid() && token@ == #[trigger] date_text(d) ==> r == Some(d),
    {
        naive_date(token)
    }
}

impl DateTime {
    /// Writes the date and time as in "2015-09-05 23:56:04".
    pub fn to_text(&self) -> (r: String)
        ensures
            r@ == date_time_text(*self),
    {
        let mut out = String::new();
        self.date.write(&mut out);
        out.push(' ');
        push_padded(&mut out, self.hour as u64, 2);
        out.push(':');
        push_padded(&mut out, self.minute as u64, 2);
        out.push(':');
        push_padded(&mut out, self.second as u64, 2);
        out
    }
}

/// Whether `year` is a leap year.
pub fn leap_year(year: i32) -> (r: bool)
    ensures
        r == is_leap(year as int),
{
    let wide: i64 = year as i64 + 2_147_484_000;
    let y: u64 = wide as u64;
    assert(y % 4 == 0 <==> (year as int) % 4 == 0);
    assert(y % 100 == 0 <==> (year as int) % 100 == 0);
    assert(y % 400 == 0 <==> (year as int) % 400 == 0);
    y % 4 == 0 && (y % 100 != 0 || y % 400 == 0)
}

/// The number of days of a month; zero for a month that does not exist.
pub fn days_in_month(year: i32, month: u32) -> (r: u32)
    ensures
        r == days_in(year as int, month as int),
{
    if month == 2 {
        if leap_year(year) {
            29
        } else {
            28
        }
    } else if month == 4 || month == 6 || month == 9 || month == 11 {
        30
    } else if 1 <= month && month <= 12 {
        31
    } else {
        0
    }
}

/// Trusted: `chrono::NaiveDate::from_str` reads a date or refuses the
/// text, and which of the two depends on the characters of the text alone:
/// the result is `date_of` of them. A date that it reads exists in the
/// calendar and lies within chrono's range of years, `MIN_YEAR` to
/// `MAX_YEAR`. What chrono prints for a date it reads back as that date,
/// and `date_text` is how it prints one: the year in four digits, with a
/// sign and at least four digits outside 0 to 9999, then month and day in
/// two digits each.
#[verifier::external_body]
fn naive_date(s: &str) -> (r: Option<Date>)
    ensures
        r == date_of(s@),
        r matches Some(d) ==> d.valid(),
        forall|d: Date| d.valid() && s@ == #[trigger] date_text(d) ==> r == Some(d),
{
    match chrono::NaiveDate::from_str(s) {
        Ok(d) => Some(Date { year: d.year(), month: d.month(), day: d.day() }),
        Err(_) => None,
    }
}

/// The day before a day of the calendar is a day of the calendar, the
/// first day excepted.
pub proof fn lemma_day_before_valid(d: Date)
    requires
        d.valid(),
    ensures
        day_before(d).valid(),
        d.year > MIN_YEAR || d.month > 1 || d.day > 1 ==> day_before(d) != d,
{
}

} // verus!
