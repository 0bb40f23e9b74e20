//! The replies of the movers commands: the day's three biggest winners and
//! losers.

use vstd::prelude::*;
use vstd::string::*;
use crate::formatter::{change_text, format_change};
use crate::store::{Mover, Movers};
use crate::text::{heading, heading_of};

verus! {

/// What `!help` says of the losers command.
pub open spec fn bears_help_text() -> Seq<char> {
    "!bears: Get today's big losers."@
}

/// What `!help` says of the winners command.
pub open spec fn bulls_help_text() -> Seq<char> {
    "!bulls: Get today's big winners."@
}

/// One mover: its heading and its change, closed by the code that ends
/// the colour.
pub open spec fn mover_text(m: Mover) -> Seq<char> {
    heading(m.name@, m.ticker@) + " "@ + change_text(m.diff.units as int) + " Today\x03"@
}

/// The first three movers with blanks between.
pub open spec fn movers_text(ms: Seq<Mover>) -> Seq<char> {
    mover_text(ms[0]) + " "@ + mover_text(ms[1]) + " "@ + mover_text(ms[2])
}

/// The reply for the movers that the store answered with: their report
/// where there are at least three, nothing where there are fewer or none.
pub open spec fn movers_reply(movers: Option<Movers>) -> Option<Seq<char>> {
    match movers {
        Some(ms) => if ms.movers@.len() >= 3 {
            Some(movers_text(ms.movers@))
        } else {
            None
        },
        None => None,
    }
}

/// Writes one mover.
pub fn render_mover(m: &Mover) -> (r: String)
    ensures
        r@ == mover_text(*m),
{
    let mut out = heading_of(m.name.as_str(), m.ticker.as_str());
    out.append(" ");
    out.append(format_change(m.diff).as_str());
    out.append(" Today\x03");
    out
}

/// Writes the report of the movers, if there are three.
pub fn render(movers: Option<Movers>) -> (r: Option<String>)
    ensures
        match movers_reply(movers) {
            Some(text) => r matches Some(t) && t@ == text,
            None => r is None,
        },
{
    match movers {
        Some(ms) => {
            if ms.movers.len() < 3 {
                return None;
            }
            let mut out = render_mover(&ms.movers[0]);
            out.append(" ");
            out.append(render_mover(&ms.movers[1]).as_str());
            out.append(" ");
            out.append(render_mover(&ms.movers[2]).as_str());
            Some(out)
        },
        None => None,
    }
}

/// The reply to `!bears`, given what the store answered.
pub fn get_bears(movers: Option<Movers>) -> (r: Option<String>)
    ensures
        match movers_reply(movers) {
            Some(text) => r matches Some(t) && t@ == text,
            None => r is None,
        },
{
    render(movers)
}

/// The help line of `!bears`.
pub fn bears_help() -> (r: String)
    ensures
        r@ == bears_help_text(),
{
    String::from_str("!bears: Get today's big losers.")
}

/// The reply to `!bulls`, given what the store answered.
pub fn get_bulls(movers: Option<Movers>) -> (r: Option<String>)
    ensures
        match movers_reply(movers) {
            Some(text) => r matches Some(t) && t@ == text,
            None => r is None,
        },
{
    render(movers)
}

/// The help line of `!bulls`.
pub fn bulls_help() -> (r: String)
    ensures
        r@ == bulls_help_text(),
{
    String::from_str("!bulls: Get today's big winners.")
}

} // verus!
