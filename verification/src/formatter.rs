//! Display of prices and percentage changes.

use vstd::prelude::*;
use vstd::string::*;
use crate::decimal::{mag, rounded, sign_text, Decimal, SCALE};
use crate::digits::{
    digits_of, grouped_digits, is_digit, lemma_digits_of, lemma_grouped_digits, lemma_padded, padded,
    push_digits, push_grouped, push_padded,
};

verus! {

/// Marks the start of a falling change: the colour code for red.
pub open spec fn down_marker() -> Seq<char> {
    "\x0305Down: "@
}

/// Marks the start of a rising change: the colour code for green.
pub open spec fn up_marker() -> Seq<char> {
    "\x0303Up: "@
}

/// A number of hundredths written with a point before the last two digits.
pub open spec fn hundredths_text(cents: nat) -> Seq<char> {
    digits_of(cents / 100) + seq!['.'] + padded(cents % 100, 2)
}

/// A number of hundredths written with a point before the last two digits
/// and the whole part grouped in thousands.
pub open spec fn grouped_hundredths_text(cents: nat) -> Seq<char> {
    grouped_digits(cents / 100) + seq!['.'] + padded(cents % 100, 2)
}

/// How a price of `units` hundred-millionths is shown. Below one in
/// absolute value: all eight decimals. From one on: rounded to two
/// decimals, halves away from zero, the whole part grouped in thousands.
pub open spec fn currency_text(units: int) -> Seq<char> {
    let m = mag(units);
    if m < SCALE {
        sign_text(units) + seq!['0', '.'] + padded(m, 8)
    } else {
        sign_text(units) + grouped_hundredths_text(rounded(m, 1_000_000))
    }
}

/// How a change of `units` hundred-millionths of a percent is shown: the
/// marker of its direction, its absolute value rounded to two decimals,
/// halves upwards, and a percent sign.
pub open spec fn change_text(units: int) -> Seq<char> {
    (if units < 0 {
        down_marker()
    } else {
        up_marker()
    }) + hundredths_text(rounded(mag(units), 1_000_000)) + seq!['%']
}

/// Writes a price for display.
pub fn format_currency(value: Decimal) -> (r: String)
    ensures
        r@ == currency_text(value.units as int),
{
    let m = value.magnitude();
    let mut out = String::new();
    if value.is_negative() {
        out.push('-');
    }
    if m < SCALE {
        out.push('0');
        out.push('.');
        push_padded(&mut out, m, 8);
    } else {
        let cents: u64 = (m + 500_000) / 1_000_000;
        push_grouped(&mut out, cents / 100);
        out.push('.');
        push_padded(&mut out, cents % 100, 2);
    }
    out
}

/// Writes a percentage change for display.
pub fn format_change(diff: Decimal) -> (r: String)
    ensures
        r@ == change_text(diff.units as int),
{
    let m = diff.magnitude();
    let cents: u64 = (m + 500_000) / 1_000_000;
    let mut out = if diff.is_negative() {
        String::from_str("\x0305Down: ")
    } else {
        String::from_str("\x0303Up: ")
    };
    push_digits(&mut out, cents / 100);
    out.push('.');
    push_padded(&mut out, cents % 100, 2);
    out.push('%');
    out
}

/// How many decimals a price is shown with: eight below one, two from one
/// on.
pub open spec fn decimals(units: int) -> nat {
    if mag(units) < SCALE {
        8
    } else {
        2
    }
}

/// A price ends in a point and its decimals, with at least one character
/// before the point, and starts with a minus sign exactly when it is
/// below zero.
pub proof fn lemma_currency_shape(units: int)
    ensures
        ({
            let text = currency_text(units);
            let point = text.len() - decimals(units) - 1;
            &&& point >= 1
            &&& text[point] == '.'
            &&& forall|i: int| point < i < text.len() ==> is_digit(#[trigger] text[i])
            &&& (text[0] == '-') == (units < 0)
        }),
{
    let m = mag(units);
    let text = currency_text(units);
    if m < SCALE {
        lemma_padded(m, 8);
    } else {
        let cents = rounded(m, 1_000_000);
        lemma_grouped_digits(cents / 100);
        lemma_padded(cents % 100, 2);
        let whole = grouped_digits(cents / 100);
        assert(is_digit(whole[0]) || whole[0] == ',');
        if units >= 0 {
            assert(text[0] == whole[0]);
        }
    }
}

/// A change shows no minus sign: its direction is in its marker.
pub proof fn lemma_change_has_no_minus(units: int)
    ensures
        forall|i: int| 0 <= i < change_text(units).len() ==> #[trigger] change_text(units)[i] != '-',
{
    reveal_strlit("\x0305Down: ");
    reveal_strlit("\x0303Up: ");
    let cents = rounded(mag(units), 1_000_000);
    lemma_digits_of(cents / 100);
    lemma_padded(cents % 100, 2);
    let marker = if units < 0 {
        down_marker()
    } else {
        up_marker()
    };
    assert forall|i: int| 0 <= i < marker.len() implies marker[i] != '-' by {}
    let whole = digits_of(cents / 100);
    let part = padded(cents % 100, 2);
    let text = change_text(units);
    assert(text == marker + whole + seq!['.'] + part + seq!['%']);
    assert forall|i: int| 0 <= i < text.len() implies #[trigger] text[i] != '-' by {
        if i < marker.len() {
            assert(text[i] == marker[i]);
        } else if i < marker.len() + whole.len() {
            assert(text[i] == whole[i - marker.len()]);
            assert(is_digit(whole[i - marker.len()]));
        } else if i == marker.len() + whole.len() {
            assert(text[i] == '.');
        } else if i < marker.len() + whole.len() + 1 + part.len() {
            assert(text[i] == part[i - marker.len() - whole.len() - 1]);
            assert(is_digit(part[i - marker.len() - whole.len() - 1]));
        } else {
            assert(text[i] == '%');
        }
    }
}

} // verus!
