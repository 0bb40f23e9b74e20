use rooney::decimal::Decimal;
use rooney::formatter::{format_change, format_currency};

fn dec(units: i64) -> Decimal {
    Decimal::new(units)
}

#[test]
fn format_currency_0() {
    assert_eq!("1.00", format_currency(dec(100_000_000)));
}

#[test]
fn format_currency_1() {
    assert_eq!("0.01234500", format_currency(dec(1_234_500)));
}

#[test]
fn format_currency_2() {
    assert_eq!("1.00", format_currency(dec(100_000_000)));
}

#[test]
fn format_change_0() {
    assert_eq!("\u{3}03Up: 1.00%", format_change(dec(100_000_000)));
}

#[test]
fn format_change_1() {
    assert_eq!("\u{3}05Down: 50.05%", format_change(dec(-5_005_120_000)));
}

#[test]
fn currency_below_one_keeps_eight_decimals() {
    assert_eq!("0.99999999", format_currency(dec(99_999_999)));
    assert_eq!("0.00000000", format_currency(dec(0)));
    assert_eq!("0.00000001", format_currency(dec(1)));
    assert_eq!("-0.50000000", format_currency(dec(-50_000_000)));
}

#[test]
fn currency_from_one_is_grouped_with_two_decimals() {
    assert_eq!("1,234.50", format_currency(dec(123_450_000_000)));
    assert_eq!("1,000,000.00", format_currency(dec(100_000_000_000_000)));
    assert_eq!("999.99", format_currency(dec(99_999_000_000)));
    assert_eq!("1,000.00", format_currency(dec(99_999_500_000)));
    assert_eq!("12.35", format_currency(dec(1_234_500_000)));
    assert_eq!("12.34", format_currency(dec(1_234_499_999)));
    assert_eq!("-1,234.50", format_currency(dec(-123_450_000_000)));
    assert_eq!("100.05", format_currency(dec(10_005_000_000)));
}

#[test]
fn currency_at_the_ends_of_the_range() {
    assert_eq!("92,233,720,368.55", format_currency(dec(i64::MAX)));
    assert_eq!("-92,233,720,368.55", format_currency(dec(i64::MIN)));
}

#[test]
fn change_rounds_halves_up() {
    assert_eq!("\u{3}05Down: 12.35%", format_change(dec(-1_234_500_000)));
    assert_eq!("\u{3}03Up: 0.00%", format_change(dec(0)));
    assert_eq!("\u{3}03Up: 0.01%", format_change(dec(500_000)));
    assert_eq!("\u{3}03Up: 0.00%", format_change(dec(499_999)));
    assert_eq!("\u{3}05Down: 0.00%", format_change(dec(-1)));
    assert_eq!("\u{3}03Up: 1234.00%", format_change(dec(123_400_000_000)));
}
