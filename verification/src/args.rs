//! The argument resolver: what coin, date and amount a command line
//! means.
//!
//! The words of a line are its command word followed by its arguments. The
//! coin is the first argument. The date or the amount is the second
//! argument where there are two or more, and the first where there is only
//! one. Each of the three has a default, so every line resolves.

use vstd::prelude::*;
use vstd::string::*;
use crate::coins::default_coin;
use crate::date::{date_of, day_before, Date};
use crate::decimal::{decimal_of, Decimal, SCALE};
use crate::text::{lowercase_of, views_of};

verus! {

/// A resolved argument: its value, and whether the line gave it or the
/// default stands in.
#[derive(Debug)]
pub struct Resolved<T> {
    pub value: T,
    pub explicit: bool,
}

/// The coin token of a line: the first argument in lowercase, or the
/// default coin where there is no argument.
pub open spec fn coin_arg(words: Seq<Seq<char>>) -> Seq<char> {
    if words.len() <= 1 {
        default_coin()
    } else {
        lowercase_of(words[1])
    }
}

/// The word in which a line gives its date or amount, if it has one: the
/// only argument, or else the second.
pub open spec fn trailing_arg(words: Seq<Seq<char>>) -> Option<Seq<char>> {
    if words.len() == 2 {
        Some(words[1])
    } else if words.len() > 2 {
        Some(words[2])
    } else {
        None
    }
}

/// The date that a line gives, if it gives one that can be read.
pub open spec fn given_date(words: Seq<Seq<char>>) -> Option<Date> {
    match trailing_arg(words) {
        Some(token) => date_of(token),
        None => None,
    }
}

/// The date to use: the one given, or else the day before `today`.
pub open spec fn chosen_date(given: Option<Date>, today: Date) -> Date {
    match given {
        Some(date) => date,
        None => day_before(today),
    }
}

/// The date of a line read on the day `today`.
pub open spec fn date_arg(words: Seq<Seq<char>>, today: Date) -> Date {
    chosen_date(given_date(words), today)
}

/// The amount that a line gives, in units, if it gives one that can be
/// read.
pub open spec fn given_amount(words: Seq<Seq<char>>) -> Option<int> {
    match trailing_arg(words) {
        Some(token) => decimal_of(token),
        None => None,
    }
}

/// The amount of a line, in units: the one given, or else one.
pub open spec fn amount_arg(words: Seq<Seq<char>>) -> int {
    match given_amount(words) {
        Some(units) => units,
        None => SCALE as int,
    }
}

/// The coin token of a line.
pub fn parse_coin_arg(words: &Vec<String>) -> (r: Resolved<String>)
    ensures
        r.value@ == coin_arg(views_of(words@)),
        r.explicit == (words.len() > 1),
{
    if words.len() <= 1 {
        Resolved { value: String::from_str("bitcoin"), explicit: false }
    } else {
        Resolved { value: words[1].as_str().to_lowercase(), explicit: true }
    }
}

/// The word in which a line gives its date or amount.
pub fn trailing_word(words: &Vec<String>) -> (r: Option<&String>)
    ensures
        match r {
            Some(word) => trailing_arg(views_of(words@)) == Some(word@),
            None => trailing_arg(views_of(words@)) is None,
        },
{
    if words.len() == 2 {
        Some(&words[1])
    } else if words.len() > 2 {
        Some(&words[2])
    } else {
        None
    }
}

/// Settles the date of a line from what was read of it: the date read, or
/// yesterday where none was read.
pub fn choose_date(given: Option<Date>, today: Date) -> (r: Resolved<Date>)
    ensures
        r.value == chosen_date(given, today),
        r.explicit == given is Some,
{
    match given {
        Some(date) => Resolved { value: date, explicit: true },
        None => Resolved { value: today.previous(), explicit: false },
    }
}

/// The date of a line read on the day `today`.
pub fn parse_date(words: &Vec<String>, today: Date) -> (r: Resolved<Date>)
    ensures
        r.value == date_arg(views_of(words@), today),
        r.explicit == given_date(views_of(words@)) is Some,
{
    let given = match trailing_word(words) {
        Some(word) => Date::parse(word.as_str()),
        None => None,
    };
    choose_date(given, today)
}

/// The amount of a line.
pub fn parse_amount(words: &Vec<String>) -> (r: Resolved<Decimal>)
    ensures
        r.value.units == amount_arg(views_of(words@)),
        r.explicit == given_amount(views_of(words@)) is Some,
{
    let given = match trailing_word(words) {
        Some(word) => Decimal::parse(word.as_str()),
        None => None,
    };
    match given {
        Some(amount) => Resolved { value: amount, explicit: true },
        None => Resolved { value: Decimal::one(), explicit: false },
    }
}

/// A line that is only a command word resolves to the defaults: the
/// default coin, the day before today, and the amount one.
pub proof fn lemma_bare_command_defaults(words: Seq<Seq<char>>, today: Date)
    requires
        words.len() == 1,
    ensures
        coin_arg(words) == default_coin(),
        date_arg(words, today) == day_before(today),
        amount_arg(words) == SCALE,
{
}

} // verus!
