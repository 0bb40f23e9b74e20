//! The replies of the price commands.

use vstd::prelude::*;
use vstd::string::*;
use crate::formatter::{change_text, currency_text, format_change, format_currency};
use crate::store::Price;
use crate::text::{heading, heading_of};

verus! {

/// What `!help` says of the price command.
pub open spec fn help_text() -> Seq<char> {
    "!coin [coin|ticker]: Get current price for a coin. Defaults to btc."@
}

/// What `!help` says of the price command for the past day.
pub open spec fn day_help_text() -> Seq<char> {
    "!coin24 [coin|ticker]: Get current price for a coin. Defaults to btc. Statistics for past 24 hours."@
}

/// A price report. `low` and `high` introduce the extremes and `period`
/// names the time that the change covers.
pub open spec fn price_text(p: Price, low: Seq<char>, high: Seq<char>, period: Seq<char>) -> Seq<
    char,
> {
    "Current price for "@ + heading(p.name@, p.ticker@) + ": €"@ + currency_text(
        p.euro.units as int,
    ) + " $"@ + currency_text(p.dollar.units as int) + low + currency_text(p.min.units as int)
        + " Median: €"@ + currency_text(p.median.units as int) + high + currency_text(
        p.max.units as int,
    ) + " "@ + change_text(p.change.units as int) + period
}

/// The price report with today's statistics.
pub open spec fn today_text(p: Price) -> Seq<char> {
    price_text(p, " Today's Low: €"@, " Today's High: €"@, " Today"@)
}

/// The price report with the statistics of the past day.
pub open spec fn day_text(p: Price) -> Seq<char> {
    price_text(p, " 24h Low: €"@, " 24h High: €"@, " Last 24 hours"@)
}

/// Writes a price report.
pub fn render(p: &Price, low: &str, high: &str, period: &str) -> (r: String)
    ensures
        r@ == price_text(*p, low@, high@, period@),
{
    let mut out = String::from_str("Current price for ");
    out.append(heading_of(p.name.as_str(), p.ticker.as_str()).as_str());
    out.append(": €");
    out.append(format_currency(p.euro).as_str());
    out.append(" $");
    out.append(format_currency(p.dollar).as_str());
    out.append(low);
    out.append(format_currency(p.min).as_str());
    out.append(" Median: €");
    out.append(format_currency(p.median).as_str());
    out.append(high);
    out.append(format_currency(p.max).as_str());
    out.append(" ");
    out.append(format_change(p.change).as_str());
    out.append(period);
    out
}

/// The reply to `!coin`, given what the store answered: the report with
/// today's statistics, or nothing if the store had no price.
pub fn get_latest_price(price: Option<Price>) -> (r: Option<String>)
    ensures
        match price {
            Some(p) => r matches Some(text) && text@ == today_text(p),
            None => r is None,
        },
{
    match price {
        Some(p) => Some(render(&p, " Today's Low: €", " Today's High: €", " Today")),
        None => None,
    }
}

/// The reply to `!coin24`, given what the store answered: the report with
/// the statistics of the past day, or nothing if the store had no price.
pub fn get_day_price(price: Option<Price>) -> (r: Option<String>)
    ensures
        match price {
            Some(p) => r matches Some(text) && text@ == day_text(p),
            None => r is None,
        },
{
    match price {
        Some(p) => Some(render(&p, " 24h Low: €", " 24h High: €", " Last 24 hours")),
        None => None,
    }
}

/// The help line of `!coin`.
pub fn help() -> (r: String)
    ensures
        r@ == help_text(),
{
    String::from_str("!coin [coin|ticker]: Get current price for a coin. Defaults to btc.")
}

/// The help line of `!coin24`.
pub fn day_help() -> (r: String)
    ensures
        r@ == day_help_text(),
{
    String::from_str(
        "!coin24 [coin|ticker]: Get current price for a coin. Defaults to btc. Statistics for past 24 hours.",
    )
}

} // verus!
