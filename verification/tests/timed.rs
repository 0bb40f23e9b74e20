use rooney::clock::Moment;
use rooney::coins::{CoinTable, Nick};
use rooney::commands::{Commands, Error};
use rooney::date::Date;
use rooney::replies::{Replies, Scope, Step};
use rooney::store::{Answer, Query};

fn coins() -> CoinTable {
    CoinTable::new(vec![Nick { nick: "eth".to_string(), coin: "ethereum".to_string() }])
}

fn moment(seconds: u64) -> Option<Moment> {
    Some(Moment { seconds, today: Date::new(2020, 3, 1).unwrap() })
}

#[test]
fn lines_that_need_the_time() {
    let replies = Replies::new(coins());
    assert!(replies.is_timed("!advice"));
    assert!(replies.is_timed("!stats"));
    assert!(replies.is_timed("!stats eth 2020-01-01"));
    assert!(replies.is_timed("!diff eth"));
    assert!(replies.is_timed("when moon?"));
    assert!(replies.is_timed(""));
    assert!(!replies.is_timed("!help"));
    assert!(!replies.is_timed("!help !advice"));
    assert!(!replies.is_timed("!coin eth"));
    assert!(!replies.is_timed("!coin24"));
    assert!(!replies.is_timed("!ats"));
    assert!(!replies.is_timed("!bulls"));
    assert!(!replies.is_timed("!bears"));
    assert!(!replies.is_timed("!fiat eth 2"));
    let silent = Replies::with_commands(Commands::new(), coins(), Scope::PerCommand, None);
    assert!(!silent.is_timed("when moon?"));
    assert!(silent.is_timed("!advice"));
}

#[test]
fn line_that_needs_no_time_is_settled_without_a_clock() {
    let mut replies = Replies::new(coins());
    match replies.handle_by("!help !coin", None) {
        Some(Step::Reply(text)) => {
            assert_eq!(text, "!coin [coin|ticker]: Get current price for a coin. Defaults to btc.")
        }
        other => panic!("{:?}", other),
    }
    match replies.handle_by("!coin eth", None) {
        Some(Step::Ask(Query::LatestPrice { coin })) => assert_eq!(coin, "ethereum"),
        other => panic!("{:?}", other),
    }
    match replies.handle_by("!fiat eth 2", None) {
        Some(Step::Ask(Query::FiatPrice { coin, amount })) => {
            assert_eq!(coin, "ethereum");
            assert_eq!(amount.units, 200_000_000);
        }
        other => panic!("{:?}", other),
    }
    let mut silent = Replies::with_commands(Commands::new(), coins(), Scope::PerCommand, None);
    assert!(matches!(silent.handle_by("when moon?", None), Some(Step::Fail(Error::Unknown))));
}

#[test]
fn line_that_needs_the_time_waits_for_a_clock() {
    let mut replies = Replies::new(coins());
    assert!(replies.handle_by("!advice", None).is_none());
    assert!(replies.handle_by("!stats eth", None).is_none());
    assert!(replies.handle_by("!diff", None).is_none());
    assert!(replies.handle_by("when moon?", None).is_none());
    assert!(matches!(replies.handle_by("!advice", moment(10)), Some(Step::Ask(Query::Advice))));
    assert!(matches!(replies.handle_by("!advice", moment(20)), Some(Step::Fail(Error::Cooldown))));
    assert!(replies.handle_by("!advice", None).is_none());
    assert!(matches!(replies.handle_by("!advice", moment(191)), Some(Step::Ask(Query::Advice))));
    match replies.handle_by("!stats", moment(0)) {
        Some(Step::Ask(Query::DailyStats { coin, date })) => {
            assert_eq!(coin, "bitcoin");
            assert_eq!(date, Date::new(2020, 2, 29).unwrap());
        }
        other => panic!("{:?}", other),
    }
    assert!(matches!(
        replies.handle_by("when moon?", moment(5)),
        Some(Step::Ask(Query::Remark { .. }))
    ));
}

#[test]
fn reply_that_needs_no_time_is_written_without_a_clock() {
    let mut replies = Replies::new(coins());
    let advice = Query::Advice;
    assert_eq!(
        replies.answer_by(&advice, Answer::Text("hodl".to_string()), None),
        Some(Ok("hodl".to_string()))
    );
    assert_eq!(replies.answer_by(&advice, Answer::Nothing, None), Some(Err(Error::Contact)));
    let remark = Query::Remark { message: "moon".to_string() };
    let mut silent = Replies::with_commands(Commands::new(), coins(), Scope::PerCommand, None);
    assert_eq!(
        silent.answer_by(&remark, Answer::Text("x".to_string()), None),
        Some(Err(Error::Unknown))
    );
}

#[test]
fn remark_waits_for_a_clock() {
    let mut replies = Replies::new(coins());
    let remark = Query::Remark { message: "moon".to_string() };
    assert_eq!(replies.answer_by(&remark, Answer::Text("up".to_string()), None), None);
    assert_eq!(
        replies.answer_by(&remark, Answer::Text("up".to_string()), Some(100)),
        Some(Ok("up".to_string()))
    );
    assert_eq!(
        replies.answer_by(&remark, Answer::Text("up".to_string()), Some(200)),
        Some(Err(Error::NoReply))
    );
    assert_eq!(replies.answer_by(&remark, Answer::Text("up".to_string()), None), None);
    assert_eq!(
        replies.answer_by(&remark, Answer::Text("up".to_string()), Some(281)),
        Some(Ok("up".to_string()))
    );
}
