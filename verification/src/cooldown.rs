//! The cooldown gate: a rate limiter that remembers the last call it
//! permitted.
//!
//! A gate is idle until its first call and armed from then on. An armed
//! gate blocks every call that comes no later than `window` seconds after
//! the last permitted call; a blocked call changes nothing.

use vstd::prelude::*;

verus! {

/// The usual window: three minutes, in seconds.
pub const WINDOW: u64 = 180;

/// A cooldown gate. `last_call` is the time, in seconds on the caller's
/// clock, of the last permitted call.
#[derive(Clone, Copy, Debug)]
pub struct Cooldown {
    pub window: u64,
    pub last_call: Option<u64>,
}

/// The time from `then` to `now`; none if the clock went backwards.
pub open spec fn elapsed(now: u64, then: u64) -> nat {
    if now >= then {
        (now - then) as nat
    } else {
        0
    }
}

impl Cooldown {
    /// Whether a call at `now` is blocked.
    pub open spec fn blocked(self, now: u64) -> bool {
        match self.last_call {
            None => false,
            Some(then) => elapsed(now, then) <= self.window,
        }
    }

    /// This gate once it has permitted a call at `now`.
    pub open spec fn armed(self, now: u64) -> Cooldown {
        Cooldown { window: self.window, last_call: Some(now) }
    }

    /// This gate after a call at `now`, permitted or blocked.
    pub open spec fn after(self, now: u64) -> Cooldown {
        if self.blocked(now) {
            self
        } else {
            self.armed(now)
        }
    }

    /// An idle gate.
    pub fn new(window: u64) -> (r: Cooldown)
        ensures
            r.window == window,
            r.last_call is None,
    {
        Cooldown { window, last_call: None }
    }

    /// The time of the last permitted call.
    pub fn get_last_call(&self) -> (r: Option<u64>)
        ensures
            r == self.last_call,
    {
        self.last_call
    }

    /// Records a permitted call at `now`.
    pub fn set_last_call(&mut self, now: u64)
        ensures
            *final(self) == old(self).armed(now),
    {
        self.last_call = Some(now);
    }

    /// Whether a call at `now` would be blocked. Nothing changes.
    pub fn is_blocked(&self, now: u64) -> (r: bool)
        ensures
            r == self.blocked(now),
    {
        match self.last_call {
            None => false,
            Some(then) => now < then || now - then <= self.window,
        }
    }

    /// Makes a call at `now`: says whether it is blocked, and arms the
    /// gate at `now` if it is not.
    pub fn on_cooldown(&mut self, now: u64) -> (r: bool)
        ensures
            r == old(self).blocked(now),
            *final(self) == old(self).after(now),
    {
        if self.is_blocked(now) {
            true
        } else {
            self.set_last_call(now);
            false
        }
    }
}

/// Every call leaves a gate armed, and the first call is permitted.
pub proof fn lemma_first_call(gate: Cooldown, now: u64)
    ensures
        gate.after(now).last_call is Some,
        gate.after(now).window == gate.window,
        gate.last_call is None ==> !gate.blocked(now) && gate.after(now).last_call == Some(now),
{
}

/// A second call within the window is blocked and keeps the time that
/// the first call stored.
pub proof fn lemma_call_within_window(gate: Cooldown, first: u64, second: u64)
    requires
        elapsed(second, gate.after(first).last_call.unwrap()) <= gate.window,
    ensures
        gate.after(first).blocked(second),
        gate.after(first).after(second) == gate.after(first),
{
}

/// A call after the window has elapsed is permitted and stored.
pub proof fn lemma_call_after_window(gate: Cooldown, first: u64, later: u64)
    requires
        elapsed(later, gate.after(first).last_call.unwrap()) > gate.window,
    ensures
        !gate.after(first).blocked(later),
        gate.after(first).after(later).last_call == Some(later),
{
}

} // verus!
