//! What the engine asks of the price store and what the store answers.
//!
//! The engine never talks to the store itself. It hands out a `Query`; its
//! caller has the store answer it and hands the `Answer` back.

use vstd::prelude::*;
use crate::date::{Date, DateTime};
use crate::decimal::Decimal;

verus! {

/// The latest price of a coin with the extremes, the median and the change
/// of the period it was asked for.
#[derive(Clone, Debug)]
pub struct Price {
    pub name: String,
    pub ticker: String,
    pub euro: Decimal,
    pub dollar: Decimal,
    pub min: Decimal,
    pub max: Decimal,
    pub change: Decimal,
    pub median: Decimal,
}

/// The lowest and the highest price a coin ever had, each with its day.
#[derive(Clone, Debug)]
pub struct ATS {
    pub name: String,
    pub lowest: Decimal,
    pub lowest_date: Date,
    pub highest: Decimal,
    pub highest_date: Date,
}

/// A coin with its change of price over the day, in percent.
#[derive(Clone, Debug)]
pub struct Mover {
    pub name: String,
    pub ticker: String,
    pub diff: Decimal,
}

/// The coins that moved most, strongest first.
#[derive(Clone, Debug)]
pub struct Movers {
    pub movers: Vec<Mover>,
}

/// The statistics of a coin's price over one day.
#[derive(Clone, Debug)]
pub struct Stats {
    pub name: String,
    pub ticker: String,
    pub date: Date,
    pub min: Decimal,
    pub average: Decimal,
    pub median: Decimal,
    pub std_dev: Decimal,
    pub max: Decimal,
}

/// The price of a coin on a day against its latest price.
#[derive(Clone, Debug)]
pub struct Diff {
    pub name: String,
    pub ticker: String,
    pub start: Date,
    pub end: DateTime,
    pub first: Decimal,
    pub last: Decimal,
    pub diff: Decimal,
}

/// An amount of a coin with the coin's price in euro.
#[derive(Clone, Debug)]
pub struct Fiat {
    pub name: String,
    pub ticker: String,
    pub amount: Decimal,
    pub euro: Decimal,
}

/// Which end of the day's movers is asked for.
#[derive(Clone, Copy, Debug, PartialEq, Eq, Structural)]
pub enum Direction {
    Gainers,
    Losers,
}

/// A question to the store.
#[derive(Clone, Debug)]
pub enum Query {
    /// The latest price of a coin, with today's statistics.
    LatestPrice { coin: String },
    /// The latest price of a coin, with the statistics of the past day.
    DayPrice { coin: String },
    /// The all-time extremes of a coin.
    AllTime { coin: String },
    /// The three strongest movers of the day.
    TopMovers { direction: Direction },
    /// The statistics of a coin on a day.
    DailyStats { coin: String, date: Date },
    /// The price of a coin on a day against its latest price.
    PriceDiff { coin: String, date: Date },
    /// The latest price of a coin, to value an amount of it.
    FiatPrice { coin: String, amount: Decimal },
    /// A piece of advice picked at random.
    Advice,
    /// A remark whose pattern matches the message.
    Remark { message: String },
}

/// A `Query` as a mathematical value.
pub enum QueryView {
    LatestPrice { coin: Seq<char> },
    DayPrice { coin: Seq<char> },
    AllTime { coin: Seq<char> },
    TopMovers { direction: Direction },
    DailyStats { coin: Seq<char>, date: Date },
    PriceDiff { coin: Seq<char>, date: Date },
    FiatPrice { coin: Seq<char>, amount: int },
    Advice,
    Remark { message: Seq<char> },
}

impl View for Query {
    type V = QueryView;

    open spec fn view(&self) -> QueryView {
        match *self {
            Query::LatestPrice { coin } => QueryView::LatestPrice { coin: coin@ },
            Query::DayPrice { coin } => QueryView::DayPrice { coin: coin@ },
            Query::AllTime { coin } => QueryView::AllTime { coin: coin@ },
            Query::TopMovers { direction } => QueryView::TopMovers { direction },
            Query::DailyStats { coin, date } => QueryView::DailyStats { coin: coin@, date },
            Query::PriceDiff { coin, date } => QueryView::PriceDiff { coin: coin@, date },
            Query::FiatPrice { coin, amount } => QueryView::FiatPrice {
                coin: coin@,
                amount: amount.units as int,
            },
            Query::Advice => QueryView::Advice,
            Query::Remark { message } => QueryView::Remark { message: message@ },
        }
    }
}

/// What the store found. `Nothing` stands for no rows and for a store that
/// could not be reached.
#[derive(Clone, Debug)]
pub enum Answer {
    Nothing,
    Price(Price),
    AllTime(ATS),
    Movers(Movers),
    Stats(Stats),
    Diff(Diff),
    Text(String),
}

impl Fiat {
    /// An amount of the coin that `price` is of.
    pub fn new(amount: Decimal, price: &Price) -> (r: Fiat)
        ensures
            r == (Fiat { name: price.name, ticker: price.ticker, amount, euro: price.euro }),
    {
        Fiat {
            name: price.name.clone(),
            ticker: price.ticker.clone(),
            amount,
            euro: price.euro,
        }
    }
}

} // verus!
