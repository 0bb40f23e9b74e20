//! The help texts.

use vstd::prelude::*;
use vstd::string::*;
use crate::commands::{help_list, usual_commands, Commands};
use crate::text::str_eq;

verus! {

/// The general help of the usual registry: the commands there are.
pub open spec fn general_help_text() -> Seq<char> {
    help_list(usual_commands())
}

/// The help line of the command with the bare name `command`, the name
/// without its exclamation mark; `None` for any other word.
pub open spec fn help_of(command: Seq<char>) -> Option<Seq<char>> {
    if command == "advice"@ {
        Some(super::advice::help_text())
    } else if command == "ats"@ {
        Some(super::ats::help_text())
    } else if command == "bears"@ {
        Some(super::movers::bears_help_text())
    } else if command == "bulls"@ {
        Some(super::movers::bulls_help_text())
    } else if command == "coin"@ {
        Some(super::price::help_text())
    } else if command == "diff"@ {
        Some(super::diff::help_text())
    } else if command == "fiat"@ {
        Some(super::fiat::help_text())
    } else if command == "stats"@ {
        Some(super::stats::help_text())
    } else {
        None
    }
}

/// The general help of the usual registry.
pub fn general_help() -> (r: String)
    ensures
        r@ == general_help_text(),
{
    Commands::new().help()
}

/// The help line of a command, looked up by its bare name.
pub fn get_help(command: &str) -> (r: Option<String>)
    ensures
        match help_of(command@) {
            Some(text) => r matches Some(t) && t@ == text,
            None => r is None,
        },
{
    if str_eq(command, "advice") {
        Some(super::advice::help())
    } else if str_eq(command, "ats") {
        Some(super::ats::help())
    } else if str_eq(command, "bears") {
        Some(super::movers::bears_help())
    } else if str_eq(command, "bulls") {
        Some(super::movers::bulls_help())
    } else if str_eq(command, "coin") {
        Some(super::price::help())
    } else if str_eq(command, "diff") {
        Some(super::diff::help())
    } else if str_eq(command, "fiat") {
        Some(super::fiat::help())
    } else if str_eq(command, "stats") {
        Some(super::stats::help())
    } else {
        None
    }
}

} // verus!
