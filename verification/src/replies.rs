//! The dispatcher: from a line of chat to a reply.
//!
//! A line is handled in two steps, because the engine never talks to the
//! price store itself. `Replies::handle_message` reads the line and either
//! settles it at once, by a reply or by a failure, or says what to ask the
//! store. `Replies::reply` takes the store's answer and writes the reply.
//! The caller supplies the time: `now` in seconds on a clock of its choice,
//! and today's date. `Replies::handle` and `Replies::answer` read the
//! system clock instead.
//!
//! Both steps take the dispatcher by exclusive reference, so a cooldown is
//! checked and armed in one step that no other call can come between.

use vstd::prelude::*;
use vstd::string::*;
use crate::clock::{consistent, now, seconds_now, Moment};
use crate::args::{amount_arg, coin_arg, date_arg, parse_amount, parse_coin_arg, parse_date};
use crate::coins::{default_coin, lemma_resolve_is_coin, resolve, CoinTable};
use crate::commands::{
    found, help_list, help_word, names_distinct, usual_commands, CommandView, Commands, Error, Kind,
};
use crate::cooldown::{Cooldown, WINDOW};
use crate::date::{day_before, Date};
use crate::decimal::SCALE;
use crate::store::{Answer, Direction, Fiat, Query, QueryView};
use crate::text::{str_eq, views_of};
use crate::words::{split_whitespace, words_of};

pub mod advice;
pub mod ats;
pub mod diff;
pub mod fiat;
pub mod help;
pub mod movers;
pub mod price;
pub mod remark;
pub mod stats;

verus! {

/// What a line of chat comes to before the store is asked.
#[derive(Debug)]
pub enum Step {
    /// The reply to send.
    Reply(String),
    /// No reply: nothing is to be sent.
    Fail(Error),
    /// The reply depends on the store: ask it this, and hand the answer to
    /// `Replies::reply`.
    Ask(Query),
}

/// A `Step` as a mathematical value.
pub enum StepView {
    Reply(Seq<char>),
    Fail(Error),
    Ask(QueryView),
}

impl View for Step {
    type V = StepView;

    open spec fn view(&self) -> StepView {
        match *self {
            Step::Reply(text) => StepView::Reply(text@),
            Step::Fail(error) => StepView::Fail(error),
            Step::Ask(query) => StepView::Ask(query@),
        }
    }
}

/// Whether each rate-limited command cools down by itself or all of them
/// cool down together.
#[derive(Clone, Copy, Debug, PartialEq, Eq, Structural)]
pub enum Scope {
    PerCommand,
    Global,
}

/// The dispatcher: the registry, the coin table, when the rate-limited
/// commands were last called, and the remark fallback, if remarks are on.
pub struct Replies {
    commands: Commands,
    coins: CoinTable,
    scope: Scope,
    last_calls: Vec<Option<u64>>,
    shared_call: Option<u64>,
    remark: Option<remark::Remark>,
}

/// A dispatcher as a mathematical value.
pub struct RepliesView {
    /// The registered commands in order.
    pub commands: Seq<CommandView>,
    /// The nicknames of the coins, each with its coin.
    pub nicks: Map<Seq<char>, Seq<char>>,
    /// Whether the rate-limited commands cool down each by itself.
    pub scope: Scope,
    /// For each command, the time of its last permitted call; kept where
    /// the commands cool down each by itself.
    pub last_calls: Seq<Option<u64>>,
    /// The time of the last permitted call of any rate-limited command;
    /// kept where the commands cool down together.
    pub shared_call: Option<u64>,
    /// The cooldown of the remarks; `None` where remarks are off.
    pub remark: Option<Cooldown>,
}

/// What a command of the given kind asks the store, for the words of its
/// line.
pub open spec fn query_for(
    kind: Kind,
    words: Seq<Seq<char>>,
    nicks: Map<Seq<char>, Seq<char>>,
    today: Date,
) -> QueryView {
    let coin = resolve(nicks, coin_arg(words));
    match kind {
        Kind::Advice => QueryView::Advice,
        Kind::Ats => QueryView::AllTime { coin },
        Kind::Diff => QueryView::PriceDiff { coin, date: date_arg(words, today) },
        Kind::Fiat => QueryView::FiatPrice { coin, amount: amount_arg(words) },
        Kind::Bulls => QueryView::TopMovers { direction: Direction::Gainers },
        Kind::Bears => QueryView::TopMovers { direction: Direction::Losers },
        Kind::Coin => QueryView::LatestPrice { coin },
        Kind::Coin24 => QueryView::DayPrice { coin },
        Kind::Stats => QueryView::DailyStats { coin, date: date_arg(words, today) },
    }
}

/// The coin that a query names, if it names one.
pub open spec fn query_coin(query: QueryView) -> Option<Seq<char>> {
    match query {
        QueryView::LatestPrice { coin } => Some(coin),
        QueryView::DayPrice { coin } => Some(coin),
        QueryView::AllTime { coin } => Some(coin),
        QueryView::DailyStats { coin, .. } => Some(coin),
        QueryView::PriceDiff { coin, .. } => Some(coin),
        QueryView::FiatPrice { coin, .. } => Some(coin),
        _ => None,
    }
}

/// The reply to a help line: the help of the command that its first
/// argument names, or the general help of the registry where it names
/// none.
pub open spec fn help_reply(commands: Seq<CommandView>, words: Seq<Seq<char>>) -> Seq<char> {
    if words.len() < 2 {
        help_list(commands)
    } else {
        match found(commands, words[1]) {
            Some(i) => commands[i].help,
            None => help_list(commands),
        }
    }
}

/// What the store's answer to a query renders to; `None` where the answer
/// holds nothing that the query asked for.
pub open spec fn rendered(query: Query, answer: Answer) -> Option<Seq<char>> {
    match query {
        Query::LatestPrice { .. } => match answer {
            Answer::Price(p) => Some(price::today_text(p)),
            _ => None,
        },
        Query::DayPrice { .. } => match answer {
            Answer::Price(p) => Some(price::day_text(p)),
            _ => None,
        },
        Query::AllTime { .. } => match answer {
            Answer::AllTime(a) => Some(ats::ats_text(a)),
            _ => None,
        },
        Query::TopMovers { .. } => match answer {
            Answer::Movers(ms) => movers::movers_reply(Some(ms)),
            _ => None,
        },
        Query::DailyStats { .. } => match answer {
            Answer::Stats(s) => Some(stats::stats_text(s)),
            _ => None,
        },
        Query::PriceDiff { .. } => match answer {
            Answer::Diff(d) => Some(diff::diff_text(d)),
            _ => None,
        },
        Query::FiatPrice { amount, .. } => match answer {
            Answer::Price(p) => Some(
                fiat::fiat_text(Fiat { name: p.name, ticker: p.ticker, amount, euro: p.euro }),
            ),
            _ => None,
        },
        Query::Advice => match answer {
            Answer::Text(t) => Some(t@),
            _ => None,
        },
        Query::Remark { .. } => match answer {
            Answer::Text(t) => Some(t@),
            _ => None,
        },
    }
}

impl RepliesView {
    /// Whether the dispatcher is in order: it keeps one time of last call
    /// for each command, and no command name occurs twice.
    pub open spec fn wf(self) -> bool {
        &&& self.last_calls.len() == self.commands.len()
        &&& names_distinct(self.commands)
    }

    /// The place of the command that a line calls: the command whose name
    /// is exactly the first word.
    pub open spec fn called(self, words: Seq<Seq<char>>) -> Option<int> {
        if words.len() == 0 {
            None
        } else {
            found(self.commands, words[0])
        }
    }

    /// The cooldown of the command at place `i`, if it is rate-limited.
    pub open spec fn gate(self, i: int) -> Option<Cooldown> {
        match self.commands[i].window {
            Some(window) => Some(
                Cooldown {
                    window,
                    last_call: match self.scope {
                        Scope::PerCommand => self.last_calls[i],
                        Scope::Global => self.shared_call,
                    },
                },
            ),
            None => None,
        }
    }

    /// The dispatcher with `call` recorded as the last permitted call of
    /// the command at place `i`.
    pub open spec fn recorded(self, i: int, call: Option<u64>) -> RepliesView {
        match self.scope {
            Scope::PerCommand => RepliesView {
                commands: self.commands,
                nicks: self.nicks,
                scope: self.scope,
                last_calls: self.last_calls.update(i, call),
                shared_call: self.shared_call,
                remark: self.remark,
            },
            Scope::Global => RepliesView {
                commands: self.commands,
                nicks: self.nicks,
                scope: self.scope,
                last_calls: self.last_calls,
                shared_call: call,
                remark: self.remark,
            },
        }
    }

    /// Whether a line asks for help.
    pub open spec fn asks_help(words: Seq<Seq<char>>) -> bool {
        words.len() > 0 && words[0] == help_word()
    }

    /// What the line `message` comes to at the time `now` on the day
    /// `today`.
    pub open spec fn step(self, message: Seq<char>, now: u64, today: Date) -> StepView {
        let words = words_of(message);
        if Self::asks_help(words) {
            StepView::Reply(help_reply(self.commands, words))
        } else {
            match self.called(words) {
                Some(i) => {
                    if self.gate(i) is Some && self.gate(i).unwrap().blocked(now) {
                        StepView::Fail(Error::Cooldown)
                    } else {
                        StepView::Ask(query_for(self.commands[i].kind, words, self.nicks, today))
                    }
                },
                None => match self.remark {
                    None => StepView::Fail(Error::Unknown),
                    Some(gate) => {
                        if gate.blocked(now) {
                            StepView::Fail(Error::NoReply)
                        } else {
                            StepView::Ask(QueryView::Remark { message })
                        }
                    },
                },
            }
        }
    }

    /// The dispatcher after the line `message` at the time `now`: a call
    /// of a rate-limited command that is permitted is recorded; nothing
    /// else changes.
    pub open spec fn after(self, message: Seq<char>, now: u64) -> RepliesView {
        let words = words_of(message);
        if Self::asks_help(words) {
            self
        } else {
            match self.called(words) {
                Some(i) => match self.gate(i) {
                    Some(gate) => self.recorded(i, gate.after(now).last_call),
                    None => self,
                },
                None => self,
            }
        }
    }

    /// The reply to a query, given the store's answer, at the time `now`.
    /// A remark is sent unless the remarks are cooling down; of the other
    /// queries each is replied to with what its answer renders to, and
    /// fails with `Contact` where the answer holds nothing for it.
    pub open spec fn reply(self, query: Query, answer: Answer, now: u64) -> Result<
        Seq<char>,
        Error,
    > {
        if query is Remark {
            match self.remark {
                None => Err(Error::Unknown),
                Some(gate) => match rendered(query, answer) {
                    Some(text) => if gate.blocked(now) {
                        Err(Error::NoReply)
                    } else {
                        Ok(text)
                    },
                    None => Err(Error::NoReply),
                },
            }
        } else {
            match rendered(query, answer) {
                Some(text) => Ok(text),
                None => Err(Error::Contact),
            }
        }
    }

    /// The dispatcher after the reply to a query: a remark that is sent
    /// arms the cooldown of the remarks; nothing else changes.
    pub open spec fn after_reply(self, query: Query, answer: Answer, now: u64) -> RepliesView {
        if query is Remark && self.reply(query, answer, now) is Ok {
            RepliesView {
                commands: self.commands,
                nicks: self.nicks,
                scope: self.scope,
                last_calls: self.last_calls,
                shared_call: self.shared_call,
                remark: Some(self.remark.unwrap().armed(now)),
            }
        } else {
            self
        }
    }
}

impl Replies {
    /// The dispatcher as a mathematical value.
    pub closed spec fn view(&self) -> RepliesView {
        RepliesView {
            commands: self.commands@,
            nicks: self.coins@,
            scope: self.scope,
            last_calls: self.last_calls@,
            shared_call: self.shared_call,
            remark: match self.remark {
                Some(remark) => Some(remark.gate),
                None => None,
            },
        }
    }

    /// Whether the dispatcher is in order.
    pub open spec fn wf(&self) -> bool {
        self@.wf()
    }

    /// A dispatcher with the usual commands, each cooling down by itself
    /// and none of them called yet, and with remarks that cool down for
    /// the usual window.
    pub fn new(coins: CoinTable) -> (r: Replies)
        ensures
            r.wf(),
            r@.commands == usual_commands(),
            r@.nicks == coins@,
            r@.scope == Scope::PerCommand,
            forall|i: int| 0 <= i < r@.last_calls.len() ==> r@.last_calls[i] is None,
            r@.shared_call is None,
            r@.remark == Some(Cooldown { window: WINDOW, last_call: None }),
    {
        Self::with_commands(Commands::new(), coins, Scope::PerCommand, Some(WINDOW))
    }

    /// A dispatcher with the given commands, none of them called yet.
    /// Remarks cool down for `remark_window` seconds; with `None` there
    /// are no remarks.
    pub fn with_commands(
        commands: Commands,
        coins: CoinTable,
        scope: Scope,
        remark_window: Option<u64>,
    ) -> (r: Replies)
        requires
            commands.wf(),
        ensures
            r.wf(),
            r@.commands == commands@,
            r@.nicks == coins@,
            r@.scope == scope,
            forall|i: int| 0 <= i < r@.last_calls.len() ==> r@.last_calls[i] is None,
            r@.shared_call is None,
            r@.remark == match remark_window {
                Some(window) => Some(Cooldown { window, last_call: None }),
                None => None,
            },
    {
        let n = commands.len();
        let mut last_calls: Vec<Option<u64>> = Vec::new();
        while last_calls.len() < n
            invariant
                last_calls.len() <= n,
                forall|i: int| 0 <= i < last_calls.len() ==> last_calls[i] is None,
            decreases n - last_calls.len(),
        {
            last_calls.push(None);
        }
        let remark = match remark_window {
            Some(window) => Some(remark::Remark::new(window)),
            None => None,
        };
        Replies { commands, coins, scope, last_calls, shared_call: None, remark }
    }

    /// The registry.
    pub fn commands(&self) -> (r: &Commands)
        ensures
            r@ == self@.commands,
    {
        &self.commands
    }

    /// The coin table.
    pub fn coins(&self) -> (r: &CoinTable)
        ensures
            r@ == self@.nicks,
    {
        &self.coins
    }

    /// The reply to a help line.
    fn help_for(&self, words: &Vec<String>) -> (r: String)
        ensures
            r@ == help_reply(self@.commands, views_of(words@)),
    {
        if words.len() < 2 {
            return self.commands.help();
        }
        match self.commands.find_command(words[1].as_str()) {
            Some(i) => self.commands.get(i).help.clone(),
            None => self.commands.help(),
        }
    }

    /// What a command of the given kind asks the store.
    fn query(&self, kind: Kind, words: &Vec<String>, today: Date) -> (r: Query)
        ensures
            r@ == query_for(kind, views_of(words@), self@.nicks, today),
    {
        match kind {
            Kind::Advice => Query::Advice,
            Kind::Ats => Query::AllTime { coin: self.coins.get_coin(parse_coin_arg(words).value) },
            Kind::Diff => Query::PriceDiff {
                coin: self.coins.get_coin(parse_coin_arg(words).value),
                date: parse_date(words, today).value,
            },
            Kind::Fiat => Query::FiatPrice {
                coin: self.coins.get_coin(parse_coin_arg(words).value),
                amount: parse_amount(words).value,
            },
            Kind::Bulls => Query::TopMovers { direction: Direction::Gainers },
            Kind::Bears => Query::TopMovers { direction: Direction::Losers },
            Kind::Coin => Query::LatestPrice {
                coin: self.coins.get_coin(parse_coin_arg(words).value),
            },
            Kind::Coin24 => Query::DayPrice {
                coin: self.coins.get_coin(parse_coin_arg(words).value),
            },
            Kind::Stats => Query::DailyStats {
                coin: self.coins.get_coin(parse_coin_arg(words).value),
                date: parse_date(words, today).value,
            },
        }
    }

    /// Reads a line of chat at the time `now`, in seconds, on the day
    /// `today`: replies to a help line, hands out the query of a command
    /// unless the command is cooling down, and hands out the query for a
    /// remark where the line calls no command.
    pub fn handle_message(&mut self, message: &str, now: u64, today: Date) -> (step: Step)
        requires
            old(self).wf(),
        ensures
            final(self).wf(),
            step@ == old(self)@.step(message@, now, today),
            final(self)@ == old(self)@.after(message@, now),
    {
        let words = split_whitespace(message);
        if words.len() > 0 && str_eq(words[0].as_str(), "!help") {
            return Step::Reply(self.help_for(&words));
        }
        let place = if words.len() > 0 {
            self.commands.find_command(words[0].as_str())
        } else {
            None
        };
        match place {
            Some(i) => {
                let kind = self.commands.get(i).kind;
                let window = self.commands.get(i).window;
                match window {
                    Some(window) => {
                        let last_call = match self.scope {
                            Scope::PerCommand => self.last_calls[i],
                            Scope::Global => self.shared_call,
                        };
                        let mut gate = Cooldown { window, last_call };
                        let blocked = gate.on_cooldown(now);
                        assert(self.last_calls@.update(i as int, self.last_calls@[i as int])
                            =~= self.last_calls@);
                        if blocked {
                            return Step::Fail(Error::Cooldown);
                        }
                        match self.scope {
                            Scope::PerCommand => {
                                self.last_calls.set(i, gate.last_call);
                            },
                            Scope::Global => {
                                self.shared_call = gate.last_call;
                            },
                        }
                    },
                    None => {},
                }
                Step::Ask(self.query(kind, &words, today))
            },
            None => match self.remark {
                None => Step::Fail(Error::Unknown),
                Some(remark) => match remark.query(message, now) {
                    Some(query) => Step::Ask(query),
                    None => Step::Fail(Error::NoReply),
                },
            },
        }
    }

    /// Reads a line of chat at the moment that the system clock shows. A line
    /// that needs no time is settled whatever the clock shows; any other gives
    /// `None`, with nothing changed, where the clock shows no time of a day.
    pub fn handle(&mut self, message: &str) -> (r: Option<Step>)
        requires
            old(self).wf(),
        ensures
            final(self).wf(),
            exists|clock: Option<Moment>|
                {
                    &&& consistent(clock)
                    &&& step_view(r) == #[trigger] old(self)@.step_by(message@, clock)
                    &&& final(self)@ == old(self)@.after_by(message@, clock)
                },
            !old(self)@.timed(message@) ==> {
                &&& step_view(r) == Some(old(self)@.step(message@, 0, epoch()))
                &&& final(self)@ == old(self)@
            },
    {
        let clock = now();
        let r = self.handle_by(message, clock);
        proof {
            if !old(self)@.timed(message@) {
                lemma_untimed_line(old(self)@, message@, clock);
            }
            assert(step_view(r) == old(self)@.step_by(message@, clock));
        }
        r
    }

    /// Writes the reply to a query from the store's answer at the present
    /// moment by the system clock. The reply to a query other than a
    /// remark does not depend on the time and is written whatever the clock
    /// shows; a remark gives `None`, with nothing changed, where the clock
    /// shows no time.
    pub fn answer(&mut self, query: &Query, answer: Answer) -> (r: Option<Result<String, Error>>)
        requires
            old(self).wf(),
        ensures
            final(self).wf(),
            exists|clock: Option<u64>|
                {
                    &&& answer_view(r) == #[trigger] old(self)@.reply_by(*query, answer, clock)
                    &&& final(self)@ == old(self)@.after_reply_by(*query, answer, clock)
                },
            !old(self)@.timed_reply(*query) ==> {
                &&& answer_view(r) == Some(old(self)@.reply(*query, answer, 0))
                &&& final(self)@ == old(self)@
            },
    {
        let clock = seconds_now();
        let r = self.answer_by(query, answer, clock);
        proof {
            if !old(self)@.timed_reply(*query) {
                lemma_untimed_reply(old(self)@, *query, answer, clock);
            }
            assert(answer_view(r) == old(self)@.reply_by(*query, answer, clock));
        }
        r
    }

    /// Writes the reply to a query from the store's answer, at the time
    /// `now`.
    pub fn reply(&mut self, query: &Query, answer: Answer, now: u64) -> (r: Result<String, Error>)
        requires
            old(self).wf(),
        ensures
            final(self).wf(),
            match r {
                Ok(text) => old(self)@.reply(*query, answer, now) == Ok::<Seq<char>, Error>(text@),
                Err(error) => old(self)@.reply(*query, answer, now) == Err::<Seq<char>, Error>(
                    error,
                ),
            },
            final(self)@ == old(self)@.after_reply(*query, answer, now),
    {
        match query {
            Query::Remark { .. } => {
                match self.remark {
                    None => Err(Error::Unknown),
                    Some(remark) => {
                        let mut remark = remark;
                        let text = match answer {
                            Answer::Text(t) => Some(t),
                            _ => None,
                        };
                        let sent = remark.run(now, text);
                        self.remark = Some(remark);
                        sent
                    },
                }
            },
            _ => {
                let text = match query {
                    Query::LatestPrice { .. } => match answer {
                        Answer::Price(p) => price::get_latest_price(Some(p)),
                        _ => None,
                    },
                    Query::DayPrice { .. } => match answer {
                        Answer::Price(p) => price::get_day_price(Some(p)),
                        _ => None,
                    },
                    Query::AllTime { .. } => match answer {
                        Answer::AllTime(a) => ats::get_ats(Some(a)),
                        _ => None,
                    },
                    Query::TopMovers { direction } => match answer {
                        Answer::Movers(ms) => match direction {
                            Direction::Gainers => movers::get_bulls(Some(ms)),
                            Direction::Losers => movers::get_bears(Some(ms)),
                        },
                        _ => None,
                    },
                    Query::DailyStats { .. } => match answer {
                        Answer::Stats(s) => stats::get_stats(Some(s)),
                        _ => None,
                    },
                    Query::PriceDiff { .. } => match answer {
                        Answer::Diff(d) => diff::get_diff(Some(d)),
                        _ => None,
                    },
                    Query::FiatPrice { amount, .. } => match answer {
                        Answer::Price(p) => fiat::get_fiat(*amount, Some(p)),
                        _ => None,
                    },
                    Query::Advice => match answer {
                        Answer::Text(t) => advice::get_advice(Some(t)),
                        _ => None,
                    },
                    Query::Remark { .. } => None,
                };
                match text {
                    Some(text) => Ok(text),
                    None => Err(Error::Contact),
                }
            },
        }
    }
}

/// The first day of 1970: the day that stands in where the day does not
/// matter.
pub open spec fn epoch() -> Date {
    Date { year: 1970, month: 1, day: 1 }
}

/// What a line came to, if anything, as a mathematical value.
pub open spec fn step_view(step: Option<Step>) -> Option<StepView> {
    match step {
        Some(step) => Some(step@),
        None => None,
    }
}

/// A reply or failure as a mathematical value.
pub open spec fn reply_view(reply: Result<String, Error>) -> Result<Seq<char>, Error> {
    match reply {
        Ok(text) => Ok(text@),
        Err(error) => Err(error),
    }
}

/// What a query came to, if anything, as a mathematical value.
pub open spec fn answer_view(reply: Option<Result<String, Error>>) -> Option<
    Result<Seq<char>, Error>,
> {
    match reply {
        Some(reply) => Some(reply_view(reply)),
        None => None,
    }
}

impl RepliesView {
    /// Whether what a line comes to depends on the time. It does for a
    /// rate-limited command, for a command that takes a date, and, while
    /// remarks are on, for a line that calls no command.
    pub open spec fn timed(self, message: Seq<char>) -> bool {
        let words = words_of(message);
        !Self::asks_help(words) && match self.called(words) {
            Some(i) => {
                ||| self.commands[i].window is Some
                ||| self.commands[i].kind == Kind::Stats
                ||| self.commands[i].kind == Kind::Diff
            },
            None => self.remark is Some,
        }
    }

    /// What a line comes to when the clock shows `clock`: with a moment,
    /// what it comes to at that moment; without one, what it comes to at
    /// any time if the time does not matter, and nothing if it does.
    pub open spec fn step_by(self, message: Seq<char>, clock: Option<Moment>) -> Option<
        StepView,
    > {
        match clock {
            Some(m) => Some(self.step(message, m.seconds, m.today)),
            None => if self.timed(message) {
                None
            } else {
                Some(self.step(message, 0, epoch()))
            },
        }
    }

    /// The dispatcher after a line when the clock shows `clock`: without a
    /// moment nothing changes.
    pub open spec fn after_by(self, message: Seq<char>, clock: Option<Moment>) -> RepliesView {
        match clock {
            Some(m) => self.after(message, m.seconds),
            None => self,
        }
    }

    /// Whether the reply to a query depends on the time: only a remark's
    /// does, and only while remarks are on.
    pub open spec fn timed_reply(self, query: Query) -> bool {
        query is Remark && self.remark is Some
    }

    /// The reply to a query when the clock shows `clock`: with a second,
    /// the reply at that second; without one, the reply at any time if the
    /// time does not matter, and nothing if it does.
    pub open spec fn reply_by(self, query: Query, answer: Answer, clock: Option<u64>) -> Option<
        Result<Seq<char>, Error>,
    > {
        match clock {
            Some(seconds) => Some(self.reply(query, answer, seconds)),
            None => if self.timed_reply(query) {
                None
            } else {
                Some(self.reply(query, answer, 0))
            },
        }
    }

    /// The dispatcher after the reply to a query when the clock shows
    /// `clock`: without a second nothing changes.
    pub open spec fn after_reply_by(
        self,
        query: Query,
        answer: Answer,
        clock: Option<u64>,
    ) -> RepliesView {
        match clock {
            Some(seconds) => self.after_reply(query, answer, seconds),
            None => self,
        }
    }
}

impl Replies {
    /// Whether what a line comes to depends on the time.
    pub fn is_timed(&self, message: &str) -> (r: bool)
        ensures
            r == self@.timed(message@),
    {
        let words = split_whitespace(message);
        if words.len() > 0 && str_eq(words[0].as_str(), "!help") {
            return false;
        }
        let place = if words.len() > 0 {
            self.commands.find_command(words[0].as_str())
        } else {
            None
        };
        match place {
            Some(i) => {
                let command = self.commands.get(i);
                match command.window {
                    Some(_) => true,
                    None => match command.kind {
                        Kind::Stats => true,
                        Kind::Diff => true,
                        _ => false,
                    },
                }
            },
            None => match self.remark {
                Some(_) => true,
                None => false,
            },
        }
    }

    /// Reads a line of chat by what the clock showed: at the moment
    /// `clock`, or, where the clock showed none, at no time at all if the
    /// line needs none.
    pub fn handle_by(&mut self, message: &str, clock: Option<Moment>) -> (r: Option<Step>)
        requires
            old(self).wf(),
        ensures
            final(self).wf(),
            step_view(r) == old(self)@.step_by(message@, clock),
            final(self)@ == old(self)@.after_by(message@, clock),
    {
        match clock {
            Some(m) => Some(self.handle_message(message, m.seconds, m.today)),
            None => {
                if self.is_timed(message) {
                    None
                } else {
                    proof {
                        lemma_untimed_line(self@, message@, None);
                    }
                    Some(self.handle_message(message, 0, Date { year: 1970, month: 1, day: 1 }))
                }
            },
        }
    }

    /// Writes the reply to a query by what the clock showed: at the second
    /// `clock`, or, where the clock showed none, at no time at all if the
    /// reply needs none.
    pub fn answer_by(&mut self, query: &Query, answer: Answer, clock: Option<u64>) -> (r: Option<
        Result<String, Error>,
    >)
        requires
            old(self).wf(),
        ensures
            final(self).wf(),
            answer_view(r) == old(self)@.reply_by(*query, answer, clock),
            final(self)@ == old(self)@.after_reply_by(*query, answer, clock),
    {
        match clock {
            Some(seconds) => Some(self.reply(query, answer, seconds)),
            None => {
                let timed = match query {
                    Query::Remark { .. } => match self.remark {
                        Some(_) => true,
                        None => false,
                    },
                    _ => false,
                };
                if timed {
                    None
                } else {
                    proof {
                        lemma_untimed_reply(self@, *query, answer, None);
                    }
                    Some(self.reply(query, answer, 0))
                }
            },
        }
    }
}

/// A line whose outcome does not depend on the time comes to the same at
/// every moment, whatever the clock shows, and changes nothing.
pub proof fn lemma_untimed_line(state: RepliesView, message: Seq<char>, clock: Option<Moment>)
    requires
        !state.timed(message),
    ensures
        state.step_by(message, clock) == Some(state.step(message, 0, epoch())),
        state.after_by(message, clock) == state,
        state.after(message, 0) == state,
{
}

/// A reply that does not depend on the time is the same at every second,
/// whatever the clock shows, and changes nothing.
pub proof fn lemma_untimed_reply(
    state: RepliesView,
    query: Query,
    answer: Answer,
    clock: Option<u64>,
)
    requires
        !state.timed_reply(query),
    ensures
        state.reply_by(query, answer, clock) == Some(state.reply(query, answer, 0)),
        state.after_reply_by(query, answer, clock) == state,
        state.after_reply(query, answer, 0) == state,
{
}

/// A line that fails changes nothing: neither a help line, nor a blocked
/// call, nor a line that is no command records a call.
pub proof fn lemma_failure_changes_nothing(
    state: RepliesView,
    message: Seq<char>,
    now: u64,
    today: Date,
)
    requires
        state.wf(),
    ensures
        !(state.step(message, now, today) is Ask) ==> state.after(message, now) == state,
{
    let words = words_of(message);
    if !RepliesView::asks_help(words) {
        match state.called(words) {
            Some(i) => {
                if state.gate(i) is Some && state.gate(i).unwrap().blocked(now) {
                    assert(state.last_calls.update(i, state.last_calls[i]) =~= state.last_calls);
                }
            },
            None => {},
        }
    }
}

/// A rate-limited command that is called again within its window is
/// refused with `Cooldown`, and the time of its last permitted call
/// stays; called after the window has elapsed, it is permitted again.
pub proof fn lemma_command_cools_down(
    state: RepliesView,
    message: Seq<char>,
    first: u64,
    again: u64,
    today: Date,
)
    requires
        state.wf(),
        state.step(message, first, today) is Ask,
        state.called(words_of(message)) matches Some(i) && state.commands[i].window is Some,
        first <= again,
    ensures
        ({
            let i = state.called(words_of(message)).unwrap();
            let window = state.commands[i].window.unwrap();
            let armed = state.after(message, first);
            &&& armed.gate(i) == Some(Cooldown { window, last_call: Some(first) })
            &&& again - first <= window ==> armed.step(message, again, today) == StepView::Fail(
                Error::Cooldown,
            ) && armed.after(message, again) == armed
            &&& again - first > window ==> armed.step(message, again, today) is Ask
                && armed.after(message, again).gate(i) == Some(
                Cooldown { window, last_call: Some(again) },
            )
        }),
{
    let words = words_of(message);
    let i = state.called(words).unwrap();
    let armed = state.after(message, first);
    assert(0 <= i < state.commands.len()) by {
        assert(found(state.commands, words[0]) == Some(i));
    }
    assert(armed.called(words) == Some(i));
    if again - first <= state.commands[i].window.unwrap() {
        lemma_failure_changes_nothing(armed, message, again, today);
    }
}

/// Every coin that a command asks the store about is a coin of the table
/// or the default coin.
pub proof fn lemma_query_names_a_coin(
    kind: Kind,
    words: Seq<Seq<char>>,
    nicks: Map<Seq<char>, Seq<char>>,
    today: Date,
)
    ensures
        match query_coin(query_for(kind, words, nicks, today)) {
            Some(coin) => nicks.values().contains(coin) || coin == default_coin(),
            None => true,
        },
{
    lemma_resolve_is_coin(nicks, coin_arg(words));
}

/// A command that stands alone on its line asks about the default coin,
/// resolved; about the day before today; and about the amount one.
pub proof fn lemma_bare_command_query(
    kind: Kind,
    message: Seq<char>,
    nicks: Map<Seq<char>, Seq<char>>,
    today: Date,
)
    requires
        words_of(message).len() == 1,
    ensures
        query_for(kind, words_of(message), nicks, today) == match kind {
            Kind::Advice => QueryView::Advice,
            Kind::Ats => QueryView::AllTime { coin: resolve(nicks, default_coin()) },
            Kind::Diff => QueryView::PriceDiff {
                coin: resolve(nicks, default_coin()),
                date: day_before(today),
            },
            Kind::Fiat => QueryView::FiatPrice {
                coin: resolve(nicks, default_coin()),
                amount: SCALE as int,
            },
            Kind::Bulls => QueryView::TopMovers { direction: Direction::Gainers },
            Kind::Bears => QueryView::TopMovers { direction: Direction::Losers },
            Kind::Coin => QueryView::LatestPrice { coin: resolve(nicks, default_coin()) },
            Kind::Coin24 => QueryView::DayPrice { coin: resolve(nicks, default_coin()) },
            Kind::Stats => QueryView::DailyStats {
                coin: resolve(nicks, default_coin()),
                date: day_before(today),
            },
        },
{
}

} // verus!
