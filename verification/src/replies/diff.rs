//! The reply of the difference command.

use vstd::prelude::*;
use vstd::string::*;
use crate::date::{date_text, date_time_text};
use crate::formatter::{change_text, currency_text, format_change, format_currency};
use crate::store::Diff;
use crate::text::{heading, heading_of};

verus! {

/// What `!help` says of the difference command.
pub open spec fn help_text() -> Seq<char> {
    "!diff [coin|ticker] [date]: Get the difference in price between the start date and current price. Defaults to btc and yesterday's date"@
}

/// The report of a coin's price on a day against its latest price.
pub open spec fn diff_text(d: Diff) -> Seq<char> {
    "Diff for "@ + heading(d.name@, d.ticker@) + " from "@ + date_text(d.start) + " to "@
        + date_time_text(d.end) + ": First: €"@ + currency_text(d.first.units as int)
        + " Latest: €"@ + currency_text(d.last.units as int) + " Diff: "@ + change_text(
        d.diff.units as int,
    ) + " To Date"@
}

/// Writes the difference report.
pub fn render(d: &Diff) -> (r: String)
    ensures
        r@ == diff_text(*d),
{
    let mut out = String::from_str("Diff for ");
    out.append(heading_of(d.name.as_str(), d.ticker.as_str()).as_str());
    out.append(" from ");
    out.append(d.start.to_text().as_str());
    out.append(" to ");
    out.append(d.end.to_text().as_str());
    out.append(": First: €");
    out.append(format_currency(d.first).as_str());
    out.append(" Latest: €");
    out.append(format_currency(d.last).as_str());
    out.append(" Diff: ");
    out.append(format_change(d.diff).as_str());
    out.append(" To Date");
    out
}

/// The help line of `!diff`.
pub fn help() -> (r: String)
    ensures
        r@ == help_text(),
{
    String::from_str(
        "!diff [coin|ticker] [date]: Get the difference in price between the start date and current price. Defaults to btc and yesterday's date",
    )
}

/// The reply to `!diff`, given what the store answered.
pub fn get_diff(diff: Option<Diff>) -> (r: Option<String>)
    ensures
        match diff {
            Some(d) => r matches Some(text) && text@ == diff_text(d),
            None => r is None,
        },
{
    match diff {
        Some(d) => Some(render(&d)),
        None => None,
    }
}

} // verus!
