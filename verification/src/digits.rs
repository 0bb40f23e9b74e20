//! Decimal digits of natural numbers, plain, zero-padded and grouped in
//! thousands.

use vstd::prelude::*;
use vstd::string::*;
use separator::Separatable;

verus! {

/// The character of a single decimal digit.
pub open spec fn digit_char(d: int) -> char {
    if d == 0 {
        '0'
    } else if d == 1 {
        '1'
    } else if d == 2 {
        '2'
    } else if d == 3 {
        '3'
    } else if d == 4 {
        '4'
    } else if d == 5 {
        '5'
    } else if d == 6 {
        '6'
    } else if d == 7 {
        '7'
    } else if d == 8 {
        '8'
    } else {
        '9'
    }
}

/// The decimal digits of `n`, most significant first, without leading
/// zeros (`0` is "0").
pub open spec fn digits_of(n: nat) -> Seq<char>
    decreases n,
{
    if n < 10 {
        seq![digit_char(n as int)]
    } else {
        digits_of(n / 10).push(digit_char((n % 10) as int))
    }
}

/// The `width` lowest decimal digits of `n`, most significant first, with
/// zeros where `n` has fewer.
pub open spec fn padded(n: nat, width: nat) -> Seq<char>
    decreases width,
{
    if width == 0 {
        Seq::empty()
    } else {
        padded(n / 10, (width - 1) as nat).push(digit_char((n % 10) as int))
    }
}

/// The decimal digits of `n` with a comma before every group of three
/// digits counted from the right: 1234567 is "1,234,567".
pub open spec fn grouped_digits(n: nat) -> Seq<char>
    decreases n,
{
    if n < 1000 {
        digits_of(n)
    } else {
        grouped_digits(n / 1000) + seq![','] + padded(n % 1000, 3)
    }
}

/// The value of a decimal digit character, if it is one.
pub open spec fn digit_value(c: char) -> Option<int> {
    if '0' <= c <= '9' {
        Some(c as int - '0' as int)
    } else {
        None
    }
}

/// Whether `c` is a decimal digit.
pub open spec fn is_digit(c: char) -> bool {
    '0' <= c <= '9'
}

/// A zero-padded number has as many characters as asked for, all of them
/// digits.
pub proof fn lemma_padded(n: nat, width: nat)
    ensures
        padded(n, width).len() == width,
        forall|i: int| 0 <= i < width ==> is_digit(#[trigger] padded(n, width)[i]),
    decreases width,
{
    if width > 0 {
        lemma_padded(n / 10, (width - 1) as nat);
    }
}

/// A number is written in at least one character, all of them digits.
pub proof fn lemma_digits_of(n: nat)
    ensures
        digits_of(n).len() >= 1,
        forall|i: int| 0 <= i < digits_of(n).len() ==> is_digit(#[trigger] digits_of(n)[i]),
    decreases n,
{
    if n >= 10 {
        lemma_digits_of(n / 10);
    }
}

/// A grouped number is written in at least one character, each a digit or
/// a comma.
pub proof fn lemma_grouped_digits(n: nat)
    ensures
        grouped_digits(n).len() >= 1,
        forall|i: int|
            0 <= i < grouped_digits(n).len() ==> is_digit(#[trigger] grouped_digits(n)[i])
                || grouped_digits(n)[i] == ',',
    decreases n,
{
    if n < 1000 {
        lemma_digits_of(n);
    } else {
        lemma_grouped_digits(n / 1000);
        lemma_padded(n % 1000, 3);
    }
}

/// Trusted: `separator::Separatable::separated_string` on a `u64` writes
/// the number in decimal and puts a comma before each digit whose distance
/// from the end is a multiple of three, the first digit excepted.
#[verifier::external_body]
pub(crate) fn separated(n: u64) -> (r: String)
    ensures
        r@ == grouped_digits(n as nat),
{
    n.separated_string()
}

/// The character of the digit `d`.
fn digit(d: u8) -> (c: char)
    requires
        d < 10,
    ensures
        c == digit_char(d as int),
{
    match d {
        0 => '0',
        1 => '1',
        2 => '2',
        3 => '3',
        4 => '4',
        5 => '5',
        6 => '6',
        7 => '7',
        8 => '8',
        _ => '9',
    }
}

/// Appends the decimal digits of `n` to `out`.
pub fn push_digits(out: &mut String, n: u64)
    ensures
        final(out)@ == old(out)@ + digits_of(n as nat),
    decreases n,
{
    if n >= 10 {
        push_digits(out, n / 10);
    }
    out.push(digit((n % 10) as u8));
}

/// Appends the `width` lowest digits of `n` to `out`, zero-padded.
pub fn push_padded(out: &mut String, n: u64, width: u8)
    ensures
        final(out)@ == old(out)@ + padded(n as nat, width as nat),
    decreases width,
{
    if width > 0 {
        push_padded(out, n / 10, width - 1);
        out.push(digit((n % 10) as u8));
    }
}

/// Appends `n`, grouped in thousands, to `out`.
pub fn push_grouped(out: &mut String, n: u64)
    ensures
        final(out)@ == old(out)@ + grouped_digits(n as nat),
{
    let s = separated(n);
    out.append(s.as_str());
}

} // verus!
