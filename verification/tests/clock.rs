use chrono::NaiveDate;
use rooney::clock::{day_at, moment_of, now, seconds_now, Moment};
use rooney::coins::CoinTable;
use rooney::date::Date;
use rooney::replies::{Replies, Step};
use rooney::store::{Answer, Query};

#[test]
fn seconds_fall_on_their_day() {
    assert_eq!(day_at(0), Date::new(1970, 1, 1));
    assert_eq!(day_at(86_399), Date::new(1970, 1, 1));
    assert_eq!(day_at(86_400), Date::new(1970, 1, 2));
    assert_eq!(day_at(1_431_648_000), Date::new(2015, 5, 15));
    assert_eq!(day_at(1_600_000_000), Date::new(2020, 9, 13));
    assert_eq!(day_at(951_782_400), Date::new(2000, 2, 29));
}

#[test]
fn seconds_out_of_range_fall_on_no_day() {
    assert_eq!(day_at(u64::MAX), None);
    assert_eq!(day_at(1 << 63), None);
    assert_eq!(day_at(i64::MAX as u64), None);
}

#[test]
fn clock_shows_a_moment() {
    let seconds = seconds_now().unwrap();
    assert!(seconds > 1_600_000_000);
    let moment = now().unwrap();
    assert!(moment.seconds >= seconds);
    assert_eq!(day_at(moment.seconds), Some(moment.today));
}

#[test]
fn line_is_handled_by_the_clock() {
    let mut replies = Replies::new(CoinTable::new(Vec::new()));
    match replies.handle("!stats").unwrap() {
        Step::Ask(Query::DailyStats { coin, date }) => {
            assert_eq!(coin, "bitcoin");
            let today = now().unwrap().today;
            assert!(date == today.previous() || date == today.previous().previous() || date == today);
        }
        other => panic!("{:?}", other),
    }
    assert!(matches!(replies.handle("!advice"), Some(Step::Ask(Query::Advice))));
    assert!(matches!(replies.handle("!advice"), Some(Step::Fail(_))));
    let query = Query::Remark { message: "x".to_string() };
    assert_eq!(replies.answer(&query, Answer::Text("y".to_string())), Some(Ok("y".to_string())));
    assert!(matches!(replies.answer(&query, Answer::Text("y".to_string())), Some(Err(_))));
}

#[test]
fn reading_stands_for_its_moment() {
    assert_eq!(moment_of(None), None);
    assert_eq!(
        moment_of(Some(0)),
        Some(Moment { seconds: 0, today: Date::new(1970, 1, 1).unwrap() })
    );
    assert_eq!(
        moment_of(Some(1_600_000_000)),
        Some(Moment { seconds: 1_600_000_000, today: Date::new(2020, 9, 13).unwrap() })
    );
    assert_eq!(moment_of(Some(u64::MAX)), None);
}

#[test]
fn each_day_follows_the_day_before() {
    assert_eq!(day_at(0), Date::new(1970, 1, 1));
    let mut earlier = day_at(0).unwrap();
    for n in 1..25_000u64 {
        let start = day_at(n * 86_400).unwrap();
        let end = day_at(n * 86_400 + 86_399).unwrap();
        assert_eq!(start, end);
        assert_eq!(start.previous(), earlier, "{}", n);
        assert_ne!(start, earlier);
        earlier = start;
    }
    assert_eq!(earlier, Date::new(2038, 6, 12).unwrap());
}

#[test]
fn last_day_is_the_last_of_the_last_year() {
    let last = NaiveDate::from_ymd_opt(262_142, 12, 31).unwrap();
    let second = last.and_hms_opt(23, 59, 59).unwrap().and_utc().timestamp() as u64;
    assert_eq!(day_at(second), Date::new(262_142, 12, 31));
    assert_eq!(day_at(second - 86_399), Date::new(262_142, 12, 31));
    assert_eq!(day_at(second - 86_400), Date::new(262_142, 12, 30));
    assert_eq!(day_at(second + 1), None);
    assert_eq!(day_at(second + 86_400), None);
}
