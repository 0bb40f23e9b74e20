//! The remark fallback: a canned reply to a line that is no command.
//!
//! Remarks have a cooldown of their own so that they do not flood the
//! chat. There are two ways to keep it. `get_remark` counts every permitted
//! call: it arms the cooldown whether or not the store found a remark.
//! `Remark::run`, which the dispatcher uses, counts only a remark that is
//! sent: a line that no pattern matches costs nothing.

use vstd::prelude::*;
use vstd::string::*;
use crate::commands::Error;
use crate::cooldown::Cooldown;
use crate::store::{Query, QueryView};

verus! {

/// The remark fallback with its cooldown.
#[derive(Clone, Copy, Debug)]
pub struct Remark {
    pub gate: Cooldown,
}

/// The remark to send at `now`, given what the store answered: the
/// store's remark unless the cooldown blocks it.
pub open spec fn remark_reply(gate: Cooldown, now: u64, remark: Option<String>) -> Option<
    String,
> {
    if gate.blocked(now) {
        None
    } else {
        remark
    }
}

/// The cooldown of the fallback after a remark was asked for at `now`:
/// armed at `now` if a remark is sent, unchanged otherwise.
pub open spec fn remark_gate(gate: Cooldown, now: u64, remark: Option<String>) -> Cooldown {
    if remark_reply(gate, now, remark) is Some {
        gate.armed(now)
    } else {
        gate
    }
}

/// The reply to a line that is no command, given what the store answered.
/// Makes a call on the cooldown: a blocked call gives nothing, and a
/// permitted call is recorded and gives what the store found, if
/// anything.
pub fn get_remark(gate: &mut Cooldown, now: u64, remark: Option<String>) -> (r: Option<String>)
    ensures
        r == remark_reply(*old(gate), now, remark),
        *final(gate) == old(gate).after(now),
{
    if gate.on_cooldown(now) {
        None
    } else {
        remark
    }
}

impl Remark {
    /// The fallback with an idle cooldown of `window` seconds.
    pub fn new(window: u64) -> (r: Remark)
        ensures
            r.gate == (Cooldown { window, last_call: None }),
    {
        Remark { gate: Cooldown::new(window) }
    }

    /// What to ask the store about a line that is no command: a remark
    /// that fits the line, or nothing while remarks are cooling down.
    pub fn query(&self, message: &str, now: u64) -> (r: Option<Query>)
        ensures
            match r {
                Some(query) => !self.gate.blocked(now) && query@ == (QueryView::Remark {
                    message: message@,
                }),
                None => self.gate.blocked(now),
            },
    {
        if self.gate.is_blocked(now) {
            None
        } else {
            Some(Query::Remark { message: String::from_str(message) })
        }
    }

    /// The reply to a line that is no command, given what the store
    /// answered: the remark, or `NoReply` where there is none to send.
    pub fn run(&mut self, now: u64, remark: Option<String>) -> (r: Result<String, Error>)
        ensures
            r == match remark_reply(old(self).gate, now, remark) {
                Some(text) => Ok::<String, Error>(text),
                None => Err::<String, Error>(Error::NoReply),
            },
            final(self).gate == remark_gate(old(self).gate, now, remark),
    {
        if self.gate.is_blocked(now) {
            return Err(Error::NoReply);
        }
        match remark {
            Some(text) => {
                self.gate.set_last_call(now);
                Ok(text)
            },
            None => Err(Error::NoReply),
        }
    }
}

} // verus!
