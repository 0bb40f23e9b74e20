//! The reply of the all-time command.

use vstd::prelude::*;
use vstd::string::*;
use crate::date::date_text;
use crate::formatter::{currency_text, format_currency};
use crate::store::ATS;
use crate::text::{title, title_text};

verus! {

/// What `!help` says of the all-time command.
pub open spec fn help_text() -> Seq<char> {
    "!ats [coin]: All time highs and lows for a coin. Defaults to bitcoin."@
}

/// The report of the lowest and highest price of a coin, the low in red
/// and the high in green.
pub open spec fn ats_text(a: ATS) -> Seq<char> {
    "All time \x0305Low\x03/\x0303High\x03 Prices for "@ + title_text(a.name@)
        + ", Lowest: \x0305€"@ + currency_text(a.lowest.units as int) + "\x03 on "@ + date_text(
        a.lowest_date,
    ) + " Highest: \x0303€"@ + currency_text(a.highest.units as int) + "\x03 on "@ + date_text(
        a.highest_date,
    )
}

/// Writes the all-time report.
pub fn render(a: &ATS) -> (r: String)
    ensures
        r@ == ats_text(*a),
{
    let mut out = String::from_str("All time \x0305Low\x03/\x0303High\x03 Prices for ");
    out.append(title(a.name.as_str()).as_str());
    out.append(", Lowest: \x0305€");
    out.append(format_currency(a.lowest).as_str());
    out.append("\x03 on ");
    out.append(a.lowest_date.to_text().as_str());
    out.append(" Highest: \x0303€");
    out.append(format_currency(a.highest).as_str());
    out.append("\x03 on ");
    out.append(a.highest_date.to_text().as_str());
    out
}

/// The reply to `!ats`, given what the store answered.
pub fn get_ats(ats: Option<ATS>) -> (r: Option<String>)
    ensures
        match ats {
            Some(a) => r matches Some(text) && text@ == ats_text(a),
            None => r is None,
        },
{
    match ats {
        Some(a) => Some(render(&a)),
        None => None,
    }
}

/// The help line of `!ats`.
pub fn help() -> (r: String)
    ensures
        r@ == help_text(),
{
    String::from_str("!ats [coin]: All time highs and lows for a coin. Defaults to bitcoin.")
}

} // verus!
