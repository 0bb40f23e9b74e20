//! The reply of the statistics command.

use vstd::prelude::*;
use vstd::string::*;
use crate::date::date_text;
use crate::formatter::{currency_text, format_currency};
use crate::store::Stats;
use crate::text::{heading, heading_of};

verus! {

/// What `!help` says of the statistics command.
pub open spec fn help_text() -> Seq<char> {
    "!stats [coin|ticker] [date]: Get the statistics for a coin's price over the course of a day. Defaults to btc and yesterday's date."@
}

/// The report of a coin's statistics on a day.
pub open spec fn stats_text(s: Stats) -> Seq<char> {
    "Stats for "@ + heading(s.name@, s.ticker@) + " on "@ + date_text(s.date) + ": Min €"@
        + currency_text(s.min.units as int) + " Mean €"@ + currency_text(s.average.units as int)
        + " Std Dev €"@ + currency_text(s.std_dev.units as int) + " Median €"@ + currency_text(
        s.median.units as int,
    ) + " Max €"@ + currency_text(s.max.units as int)
}

/// Writes the statistics report.
pub fn render(s: &Stats) -> (r: String)
    ensures
        r@ == stats_text(*s),
{
    let mut out = String::from_str("Stats for ");
    out.append(heading_of(s.name.as_str(), s.ticker.as_str()).as_str());
    out.append(" on ");
    out.append(s.date.to_text().as_str());
    out.append(": Min €");
    out.append(format_currency(s.min).as_str());
    out.append(" Mean €");
    out.append(format_currency(s.average).as_str());
    out.append(" Std Dev €");
    out.append(format_currency(s.std_dev).as_str());
    out.append(" Median €");
    out.append(format_currency(s.median).as_str());
    out.append(" Max €");
    out.append(format_currency(s.max).as_str());
    out
}

/// The reply to `!stats`, given what the store answered.
pub fn get_stats(stats: Option<Stats>) -> (r: Option<String>)
    ensures
        match stats {
            Some(s) => r matches Some(text) && text@ == stats_text(s),
            None => r is None,
        },
{
    match stats {
        Some(s) => Some(render(&s)),
        None => None,
    }
}

/// The help line of `!stats`.
pub fn help() -> (r: String)
    ensures
        r@ == help_text(),
{
    String::from_str(
        "!stats [coin|ticker] [date]: Get the statistics for a coin's price over the course of a day. Defaults to btc and yesterday's date.",
    )
}

} // verus!
