use chrono::NaiveDate;
use rooney::date::{days_in_month, leap_year, Date, DateTime};

fn date(year: i32, month: u32, day: u32) -> Date {
    Date::new(year, month, day).unwrap()
}

#[test]
fn knows_the_calendar() {
    assert!(Date::new(2024, 2, 29).is_some());
    assert!(Date::new(2023, 2, 29).is_none());
    assert!(Date::new(1900, 2, 29).is_none());
    assert!(Date::new(2000, 2, 29).is_some());
    assert!(Date::new(2023, 4, 31).is_none());
    assert!(Date::new(2023, 0, 1).is_none());
    assert!(Date::new(2023, 13, 1).is_none());
    assert!(Date::new(2023, 1, 0).is_none());
    assert!(Date::new(-4, 2, 29).is_some());
    assert!(Date::new(262_143, 1, 1).is_none());
    assert!(Date::new(-262_144, 1, 1).is_none());
    assert!(leap_year(-400));
    assert!(!leap_year(-100));
    assert_eq!(days_in_month(2023, 12), 31);
    assert_eq!(days_in_month(2023, 14), 0);
}

#[test]
fn agrees_with_chrono_on_which_days_exist() {
    for year in [-262_144, -262_143, -401, -4, -1, 0, 1, 1900, 2000, 2023, 2024, 262_142, 262_143] {
        for month in 0..14u32 {
            for day in 0..33u32 {
                assert_eq!(
                    Date::new(year, month, day).is_some(),
                    NaiveDate::from_ymd_opt(year, month, day).is_some(),
                    "{} {} {}",
                    year,
                    month,
                    day
                );
            }
        }
    }
}

#[test]
fn steps_back_a_day() {
    assert_eq!(date(2015, 6, 3).previous(), date(2015, 6, 2));
    assert_eq!(date(2015, 6, 1).previous(), date(2015, 5, 31));
    assert_eq!(date(2015, 3, 1).previous(), date(2015, 2, 28));
    assert_eq!(date(2016, 3, 1).previous(), date(2016, 2, 29));
    assert_eq!(date(2016, 1, 1).previous(), date(2015, 12, 31));
    assert_eq!(date(0, 1, 1).previous(), date(-1, 12, 31));
    assert_eq!(date(-262_143, 1, 1).previous(), date(-262_143, 1, 1));
}

#[test]
fn steps_back_as_chrono_does() {
    let mut day = NaiveDate::from_ymd_opt(2025, 3, 2).unwrap();
    let mut ours = date(2025, 3, 2);
    for _ in 0..1500 {
        day = day.pred_opt().unwrap();
        ours = ours.previous();
        assert_eq!(ours.to_text(), day.to_string());
    }
}

#[test]
fn writes_dates_as_chrono_does() {
    assert_eq!(date(2015, 9, 5).to_text(), "2015-09-05");
    assert_eq!(date(0, 1, 1).to_text(), "0000-01-01");
    assert_eq!(date(9999, 12, 31).to_text(), "9999-12-31");
    assert_eq!(date(-1, 1, 1).to_text(), "-0001-01-01");
    assert_eq!(date(10000, 12, 31).to_text(), "+10000-12-31");
    for (y, m, d) in [(-262_143, 1, 1), (-10_000, 5, 6), (-9999, 1, 2), (42, 10, 11), (262_142, 12, 31)] {
        assert_eq!(date(y, m, d).to_text(), NaiveDate::from_ymd_opt(y, m, d).unwrap().to_string());
    }
}

#[test]
fn writes_date_and_time() {
    let t = DateTime { date: date(2015, 9, 5), hour: 23, minute: 6, second: 0 };
    assert_eq!(t.to_text(), "2015-09-05 23:06:00");
    let c = NaiveDate::from_ymd_opt(2015, 9, 5).unwrap().and_hms_opt(23, 6, 0).unwrap();
    assert_eq!(t.to_text(), c.to_string());
}

#[test]
fn reads_dates() {
    assert_eq!(Date::parse("2015-09-18"), Some(date(2015, 9, 18)));
    assert_eq!(Date::parse("+12345-6-7"), Some(date(12345, 6, 7)));
    assert_eq!(Date::parse("2020-02-29"), Some(date(2020, 2, 29)));
    assert_eq!(Date::parse("2021-02-29"), None);
    assert_eq!(Date::parse("foo"), None);
    assert_eq!(Date::parse(""), None);
    assert_eq!(Date::parse("Yesterday"), None);
    assert_eq!(Date::parse("1.5"), None);
}

#[test]
fn reads_back_what_it_writes() {
    let days = [
        (-262_143, 1, 1),
        (-262_143, 12, 31),
        (-10_000, 2, 28),
        (-9999, 1, 2),
        (-400, 2, 29),
        (-1, 12, 31),
        (0, 1, 1),
        (0, 2, 29),
        (1, 1, 1),
        (999, 9, 9),
        (1970, 1, 1),
        (2020, 2, 29),
        (9999, 12, 31),
        (10_000, 1, 1),
        (99_999, 10, 10),
        (262_142, 1, 1),
        (262_142, 12, 31),
    ];
    for (y, m, d) in days {
        let day = date(y, m, d);
        assert_eq!(Date::parse(&day.to_text()), Some(day), "{}", day.to_text());
    }
    let mut day = date(2024, 3, 1);
    for _ in 0..800 {
        assert_eq!(Date::parse(&day.to_text()), Some(day));
        day = day.previous();
    }
}
