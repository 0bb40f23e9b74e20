//! Command routing for a cryptocurrency chat bot.
//!
//! The crate turns a line of chat into a reply. It decides which command
//! the line calls, if any; resolves the coin, the date and the amount that
//! the line names, each with its default; keeps rate-limited commands and
//! the remark fallback to their cooldowns; and writes the reply from what
//! the price store answered.
//!
//! The crate talks neither to the chat nor to the store. Its caller hands
//! it a line, asks the store what the crate wants to know, and hands the
//! answer back:
//!
//! * [`replies::Replies::handle_message`] reads a line and gives a
//!   [`replies::Step`]: a reply, a failure, or a [`store::Query`];
//! * [`replies::Replies::reply`] takes the [`store::Answer`] to a query and
//!   gives the reply or the failure.
//!
//! Both take the time as an argument. [`replies::Replies::handle`] and
//! [`replies::Replies::answer`] read the system clock instead.
//!
//! Every function is verified against a contract over mathematical models:
//! texts are sequences of characters, numbers are integers, and each type
//! with state has a view. What rests on outside code without proof is
//! marked "Trusted" where it stands: case conversion and title casing in
//! [`text`], grouping in thousands in [`digits`], reading dates in
//! [`date`], and the clock in [`clock`].

pub mod args;
pub mod clock;
pub mod coins;
pub mod commands;
pub mod cooldown;
pub mod date;
pub mod decimal;
pub mod digits;
pub mod formatter;
pub mod replies;
pub mod store;
pub mod text;
pub mod words;
