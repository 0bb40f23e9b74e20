use rooney::decimal::Decimal;

fn units(text: &str) -> Option<i64> {
    Decimal::parse(text).map(|d| d.units)
}

#[test]
fn parses_plain_numerals() {
    assert_eq!(units("1"), Some(100_000_000));
    assert_eq!(units("2.5"), Some(250_000_000));
    assert_eq!(units("0.00000001"), Some(1));
    assert_eq!(units("007"), Some(700_000_000));
    assert_eq!(units("5."), Some(500_000_000));
    assert_eq!(units(".5"), Some(50_000_000));
    assert_eq!(units("+3"), Some(300_000_000));
    assert_eq!(units("-3.25"), Some(-325_000_000));
    assert_eq!(units("-0"), Some(0));
}

#[test]
fn drops_digits_after_the_eighth() {
    assert_eq!(units("0.123456789"), Some(12_345_678));
    assert_eq!(units("1.000000009999"), Some(100_000_000));
}

#[test]
fn refuses_what_is_no_numeral() {
    assert_eq!(units(""), None);
    assert_eq!(units("-"), None);
    assert_eq!(units("."), None);
    assert_eq!(units("+."), None);
    assert_eq!(units("abc"), None);
    assert_eq!(units("1e3"), None);
    assert_eq!(units("1.2.3"), None);
    assert_eq!(units("1,5"), None);
    assert_eq!(units("--1"), None);
    assert_eq!(units("1 "), None);
    assert_eq!(units("2020-01-01"), None);
    assert_eq!(units("1.5x"), None);
    assert_eq!(units("١"), None);
}

#[test]
fn refuses_numerals_out_of_range() {
    assert_eq!(units("92233720368.54775807"), Some(i64::MAX));
    assert_eq!(units("92233720368.54775808"), None);
    assert_eq!(units("92233720369"), None);
    assert_eq!(units("-92233720368.54775807"), Some(-i64::MAX));
    assert_eq!(units("99999999999999999999999999"), None);
    assert_eq!(units("00000000000000000000000001"), Some(100_000_000));
}

#[test]
fn writes_the_shortest_notation() {
    assert_eq!(Decimal::new(100_000_000).to_text(), "1");
    assert_eq!(Decimal::new(250_000_000).to_text(), "2.5");
    assert_eq!(Decimal::new(1).to_text(), "0.00000001");
    assert_eq!(Decimal::new(-10).to_text(), "-0.0000001");
    assert_eq!(Decimal::new(0).to_text(), "0");
    assert_eq!(Decimal::new(1_000_000_000_000).to_text(), "10000");
    assert_eq!(Decimal::new(123_456_789_012).to_text(), "1234.56789012");
    assert_eq!(Decimal::new(i64::MIN).to_text(), "-92233720368.54775808");
    assert_eq!(Decimal::one().to_text(), "1");
}

#[test]
fn multiplies_and_rounds() {
    let two = Decimal::new(200_000_000);
    let half = Decimal::new(50_000_000);
    assert_eq!(two.times(&half).units, 100_000_000);
    assert_eq!(Decimal::new(1).times(&half).units, 1);
    assert_eq!(Decimal::new(-1).times(&half).units, -1);
    assert_eq!(Decimal::new(1).times(&Decimal::new(49_999_999)).units, 0);
    assert_eq!(Decimal::new(-300_000_000).times(&two).units, -600_000_000);
    assert_eq!(Decimal::new(-300_000_000).times(&Decimal::new(-150_000_000)).units, 450_000_000);
}

#[test]
fn multiplication_stays_in_range() {
    let big = Decimal::new(i64::MAX);
    assert_eq!(big.times(&big).units, i64::MAX);
    assert_eq!(big.times(&Decimal::new(i64::MIN)).units, i64::MIN);
    assert_eq!(Decimal::new(i64::MIN).times(&Decimal::new(i64::MIN)).units, i64::MAX);
    assert_eq!(Decimal::new(i64::MIN).times(&Decimal::one()).units, i64::MIN);
    assert_eq!(Decimal::new(i64::MIN).magnitude(), 9_223_372_036_854_775_808);
}
