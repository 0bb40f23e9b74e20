use rooney::args::{choose_date, parse_amount, parse_coin_arg, parse_date};
use rooney::date::Date;
use rooney::words::split_whitespace;

fn today() -> Date {
    Date::new(2020, 3, 1).unwrap()
}

fn yesterday() -> Date {
    Date::new(2020, 2, 29).unwrap()
}

#[test]
fn bare_command_resolves_to_the_defaults() {
    let words = split_whitespace("!stats");
    let coin = parse_coin_arg(&words);
    assert_eq!(coin.value, "bitcoin");
    assert!(!coin.explicit);
    let date = parse_date(&words, today());
    assert_eq!(date.value, yesterday());
    assert!(!date.explicit);
    let amount = parse_amount(&words);
    assert_eq!(amount.value.units, 100_000_000);
    assert!(!amount.explicit);
}

#[test]
fn no_words_resolve_to_the_defaults() {
    let words: Vec<String> = Vec::new();
    assert_eq!(parse_coin_arg(&words).value, "bitcoin");
    assert_eq!(parse_date(&words, today()).value, yesterday());
    assert_eq!(parse_amount(&words).value.units, 100_000_000);
}

#[test]
fn coin_is_the_first_argument_in_lowercase() {
    let coin = parse_coin_arg(&split_whitespace("!coin ETH"));
    assert_eq!(coin.value, "eth");
    assert!(coin.explicit);
    assert_eq!(parse_coin_arg(&split_whitespace("!coin DogeCoin 5")).value, "dogecoin");
}

#[test]
fn date_is_the_only_argument_or_the_second() {
    let given = Date::new(2019, 12, 24).unwrap();
    let two = parse_date(&split_whitespace("!stats 2019-12-24"), today());
    assert_eq!(two.value, given);
    assert!(two.explicit);
    let three = parse_date(&split_whitespace("!stats eth 2019-12-24"), today());
    assert_eq!(three.value, given);
    let four = parse_date(&split_whitespace("!stats eth 2019-12-24 2018-01-01"), today());
    assert_eq!(four.value, given);
    let wrong_place = parse_date(&split_whitespace("!stats 2019-12-24 eth"), today());
    assert_eq!(wrong_place.value, yesterday());
    assert!(!wrong_place.explicit);
}

#[test]
fn unreadable_date_gives_yesterday() {
    assert_eq!(parse_date(&split_whitespace("!diff eth"), today()).value, yesterday());
    assert_eq!(parse_date(&split_whitespace("!diff eth soon"), today()).value, yesterday());
    assert_eq!(parse_date(&split_whitespace("!diff eth 2019-02-30"), today()).value, yesterday());
}

#[test]
fn amount_is_the_only_argument_or_the_second() {
    let two = parse_amount(&split_whitespace("!fiat 2.5"));
    assert_eq!(two.value.units, 250_000_000);
    assert!(two.explicit);
    assert_eq!(parse_amount(&split_whitespace("!fiat eth 10")).value.units, 1_000_000_000);
    assert_eq!(parse_amount(&split_whitespace("!fiat eth 10 20")).value.units, 1_000_000_000);
    assert_eq!(parse_amount(&split_whitespace("!fiat 10 eth")).value.units, 100_000_000);
}

#[test]
fn unreadable_amount_gives_one() {
    let none = parse_amount(&split_whitespace("!fiat eth"));
    assert_eq!(none.value.units, 100_000_000);
    assert!(!none.explicit);
    assert_eq!(parse_amount(&split_whitespace("!fiat eth lots")).value.units, 100_000_000);
}

#[test]
fn chosen_date_is_the_given_one_or_the_day_before() {
    let given = Date::new(2001, 1, 1).unwrap();
    assert_eq!(choose_date(Some(given), today()).value, given);
    assert!(choose_date(Some(given), today()).explicit);
    assert_eq!(choose_date(None, today()).value, yesterday());
    assert_eq!(choose_date(None, Date::new(2021, 1, 1).unwrap()).value, Date::new(2020, 12, 31).unwrap());
}
