//! The reply of the fiat command: what an amount of a coin is worth.

use vstd::prelude::*;
use vstd::string::*;
use crate::decimal::{plain_text, product_units, Decimal};
use crate::formatter::{currency_text, format_currency};
use crate::store::{Fiat, Price};
use crate::text::{heading, heading_of};

verus! {

/// What `!help` says of the fiat command.
pub open spec fn help_text() -> Seq<char> {
    "!fiat [coin|ticker] [amount]: Get the current price in fiat for an amount of coins. Defaults to btc and 1 coin."@
}

/// The report of what an amount of a coin is worth in euro.
pub open spec fn fiat_text(f: Fiat) -> Seq<char> {
    plain_text(f.amount.units as int) + " "@ + heading(f.name@, f.ticker@) + " is worth €"@
        + currency_text(product_units(f.amount.units as int, f.euro.units as int)) + " at €"@
        + currency_text(f.euro.units as int) + " per coin"@
}

/// Writes the fiat report.
pub fn render(f: &Fiat) -> (r: String)
    ensures
        r@ == fiat_text(*f),
{
    let mut out = f.amount.to_text();
    out.append(" ");
    out.append(heading_of(f.name.as_str(), f.ticker.as_str()).as_str());
    out.append(" is worth €");
    out.append(format_currency(f.amount.times(&f.euro)).as_str());
    out.append(" at €");
    out.append(format_currency(f.euro).as_str());
    out.append(" per coin");
    out
}

/// The reply to `!fiat` for `amount` of a coin, given the price that the
/// store answered with.
pub fn get_fiat(amount: Decimal, price: Option<Price>) -> (r: Option<String>)
    ensures
        match price {
            Some(p) => r matches Some(text) && text@ == fiat_text(
                Fiat { name: p.name, ticker: p.ticker, amount, euro: p.euro },
            ),
            None => r is None,
        },
{
    match price {
        Some(p) => {
            let f = Fiat::new(amount, &p);
            Some(render(&f))
        },
        None => None,
    }
}

/// The help line of `!fiat`.
pub fn help() -> (r: String)
    ensures
        r@ == help_text(),
{
    String::from_str(
        "!fiat [coin|ticker] [amount]: Get the current price in fiat for an amount of coins. Defaults to btc and 1 coin.",
    )
}

} // verus!
