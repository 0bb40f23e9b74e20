//! Fixed-point decimal numbers with eight fractional digits.
//!
//! Prices, percentages and amounts are held as a whole number of units of
//! 0.00000001, so that every value prints exactly and arithmetic is exact
//! integer arithmetic.

use vstd::prelude::*;
use vstd::string::*;
use crate::digits::{digit_value, digits_of, padded, push_digits, push_padded};
use crate::text::chars_of;

verus! {

/// Units per whole: 10^8.
pub const SCALE: u64 = 100_000_000;

/// The largest magnitude, in units, that a `Decimal` read from text may
/// have.
pub const MAX_UNITS: u64 = 9_223_372_036_854_775_807;

/// A decimal number: `units` hundred-millionths.
#[derive(Clone, Copy, Debug, PartialEq, Eq, Structural)]
pub struct Decimal {
    pub units: i64,
}

/// The absolute value of `v`.
pub open spec fn mag(v: int) -> nat {
    if v < 0 {
        (-v) as nat
    } else {
        v as nat
    }
}

/// `n` divided by `d`, rounded to the nearest whole, halves upwards.
pub open spec fn rounded(n: nat, d: nat) -> nat {
    (n + d / 2) / d
}

/// `v` brought into the range of `i64`.
pub open spec fn clamped(v: int) -> int {
    if v > i64::MAX {
        i64::MAX as int
    } else if v < i64::MIN {
        i64::MIN as int
    } else {
        v
    }
}

/// The units of the product of two decimals of `a` and `b` units: the exact
/// product rounded to the nearest unit, halves away from zero, and clamped
/// to the range of `i64`.
pub open spec fn product_units(a: int, b: int) -> int {
    let m = rounded(mag(a) * mag(b), SCALE as nat) as int;
    clamped(
        if (a < 0) != (b < 0) {
            -m
        } else {
            m
        },
    )
}

/// "-" for a negative number, nothing otherwise.
pub open spec fn sign_text(v: int) -> Seq<char> {
    if v < 0 {
        seq!['-']
    } else {
        Seq::empty()
    }
}

/// The `width` lowest digits of `frac` without their trailing zeros.
pub open spec fn trimmed(frac: nat, width: nat) -> Seq<char>
    decreases width,
{
    if width == 0 {
        Seq::empty()
    } else if frac % 10 == 0 {
        trimmed(frac / 10, (width - 1) as nat)
    } else {
        padded(frac, width)
    }
}

/// The shortest decimal notation of `units` hundred-millionths: the whole
/// part, then, unless the fraction is zero, a point and the fraction
/// without trailing zeros.
pub open spec fn plain_text(units: int) -> Seq<char> {
    let m = mag(units);
    let frac = m % (SCALE as nat);
    sign_text(units) + digits_of(m / (SCALE as nat)) + if frac == 0 {
        Seq::empty()
    } else {
        seq!['.'] + trimmed(frac, 8)
    }
}

/// Whether every character of `s` is a decimal digit.
pub open spec fn all_digits(s: Seq<char>) -> bool {
    forall|i: int| 0 <= i < s.len() ==> (#[trigger] digit_value(s[i])) is Some
}

/// The number that the digits `s` write.
pub open spec fn number_of(s: Seq<char>) -> nat
    decreases s.len(),
{
    if s.len() == 0 {
        0
    } else {
        (number_of(s.drop_last()) * 10 + digit_value(s.last()).unwrap()) as nat
    }
}

/// The value of the fraction digits `f`, the first of them weighing
/// `weight` units and each next one a tenth of the one before; digits that
/// would weigh less than a unit count for nothing.
pub open spec fn fraction_units(f: Seq<char>, weight: nat) -> nat
    decreases f.len(),
{
    if f.len() == 0 || weight == 0 {
        0
    } else {
        (digit_value(f[0]).unwrap() * weight + fraction_units(f.drop_first(), weight / 10)) as nat
    }
}

/// The index of the first point in `s`, or the length of `s` if it has
/// none.
pub open spec fn find_dot(s: Seq<char>) -> int
    decreases s.len(),
{
    if s.len() == 0 || s[0] == '.' {
        0
    } else {
        1 + find_dot(s.drop_first())
    }
}

/// The magnitude, in units, that an unsigned decimal numeral writes:
/// digits, optionally followed by a point and more digits, with at least
/// one digit in all. Fraction digits after the eighth are dropped. `None`
/// for any other text, and for a numeral above `MAX_UNITS`.
pub open spec fn unsigned_of(body: Seq<char>) -> Option<nat> {
    let d = find_dot(body);
    let whole = body.take(d);
    let frac = if d < body.len() {
        body.skip(d + 1)
    } else {
        Seq::empty()
    };
    if all_digits(whole) && all_digits(frac) && whole.len() + frac.len() > 0 {
        let m = number_of(whole) * (SCALE as nat) + fraction_units(frac, 10_000_000);
        if m <= MAX_UNITS {
            Some(m)
        } else {
            None
        }
    } else {
        None
    }
}

/// Whether `s` starts with a sign.
pub open spec fn signed(s: Seq<char>) -> bool {
    s.len() > 0 && (s[0] == '-' || s[0] == '+')
}

/// The units that a decimal numeral with an optional sign writes, or
/// `None` if `s` is no such numeral.
pub open spec fn decimal_of(s: Seq<char>) -> Option<int> {
    let body = if signed(s) {
        s.drop_first()
    } else {
        s
    };
    match unsigned_of(body) {
        Some(m) => Some(
            if s.len() > 0 && s[0] == '-' {
                -(m as int)
            } else {
                m as int
            },
        ),
        None => None,
    }
}

proof fn lemma_find_dot(s: Seq<char>, i: int)
    requires
        0 <= i <= s.len(),
        forall|j: int| 0 <= j < i ==> s[j] != '.',
        i == s.len() || s[i] == '.',
    ensures
        find_dot(s) == i,
    decreases i,
{
    if i > 0 {
        let t = s.drop_first();
        assert forall|j: int| 0 <= j < i - 1 implies t[j] != '.' by {
            assert(t[j] == s[j + 1]);
        }
        lemma_find_dot(t, i - 1);
    }
}

/// A prefix of a digit string writes no larger a number than the whole.
proof fn lemma_number_of_prefix(s: Seq<char>, i: int)
    requires
        0 <= i <= s.len(),
        all_digits(s),
    ensures
        number_of(s.take(i)) <= number_of(s),
    decreases s.len() - i,
{
    if i < s.len() {
        let t = s.take(i + 1);
        assert(t.drop_last() == s.take(i));
        assert(digit_value(t.last()) is Some) by {
            assert(t.last() == s[i]);
        }
        lemma_number_of_prefix(s, i + 1);
    } else {
        assert(s.take(i) == s);
    }
}

impl Decimal {
    /// The decimal of `units` hundred-millionths.
    pub fn new(units: i64) -> (r: Decimal)
        ensures
            r.units == units,
    {
        Decimal { units }
    }

    /// The number one.
    pub fn one() -> (r: Decimal)
        ensures
            r.units == SCALE,
    {
        Decimal { units: 100_000_000 }
    }

    /// The absolute value, in units.
    pub fn magnitude(&self) -> (m: u64)
        ensures
            m == mag(self.units as int),
    {
        if self.units >= 0 {
            self.units as u64
        } else {
            let wide: i128 = self.units as i128;
            (-wide) as u64
        }
    }

    /// Whether the number is below zero.
    pub fn is_negative(&self) -> (r: bool)
        ensures
            r == (self.units < 0),
    {
        self.units < 0
    }

    /// The product of two decimals, rounded to the nearest unit and kept
    /// within the range of `i64`.
    pub fn times(&self, other: &Decimal) -> (r: Decimal)
        ensures
            r.units == product_units(self.units as int, other.units as int),
    {
        let a: u128 = self.magnitude() as u128;
        let b: u128 = other.magnitude() as u128;
        assert(a * b <= 0x8000_0000_0000_0000 * 0x8000_0000_0000_0000) by (nonlinear_arith)
            requires
                a <= 0x8000_0000_0000_0000,
                b <= 0x8000_0000_0000_0000,
        ;
        let m: u128 = (a * b + 50_000_000) / 100_000_000;
        let negative = (self.units < 0) != (other.units < 0);
        if negative {
            if m > 0x8000_0000_0000_0000 {
                Decimal { units: i64::MIN }
            } else {
                let wide: i128 = m as i128;
                Decimal { units: (-wide) as i64 }
            }
        } else {
            if m > 0x7fff_ffff_ffff_ffff {
                Decimal { units: i64::MAX }
            } else {
                Decimal { units: m as i64 }
            }
        }
    }

    /// The number in its shortest decimal notation: "1", "2.5",
    /// "-0.00000001".
    pub fn to_text(&self) -> (r: String)
        ensures
            r@ == plain_text(self.units as int),
    {
        let m = self.magnitude();
        let mut out = String::new();
        if self.units < 0 {
            out.push('-');
        }
        push_digits(&mut out, m / SCALE);
        let mut frac: u64 = m % SCALE;
        if frac != 0 {
            out.push('.');
            let mut width: u8 = 8;
            while width > 0 && frac % 10 == 0
                invariant
                    trimmed(frac as nat, width as nat) == trimmed((m % SCALE) as nat, 8),
                decreases width,
            {
                frac = frac / 10;
                width = width - 1;
            }
            push_padded(&mut out, frac, width);
        }
        out
    }

    /// Reads a decimal numeral: an optional sign, digits, and optionally a
    /// point and more digits.
    pub fn parse(token: &str) -> (r: Option<Decimal>)
        ensures
            r matches Some(d) ==> decimal_of(token@) == Some(d.units as int),
            r is None ==> decimal_of(token@) is None,
    {
        let chars = chars_of(token);
        let n = chars.len();
        let negative = n > 0 && chars[0] == '-';
        let start: usize = if n > 0 && (chars[0] == '-' || chars[0] == '+') {
            1
        } else {
            0
        };
        assert(chars@.skip(start as int) == if signed(token@) {
            token@.drop_first()
        } else {
            token@
        });
        match parse_unsigned(&chars, start) {
            Some(m) => {
                if negative {
                    let wide: i128 = m as i128;
                    Some(Decimal { units: (-wide) as i64 })
                } else {
                    Some(Decimal { units: m as i64 })
                }
            },
            None => None,
        }
    }
}

/// The value of a digit character.
pub fn digit_of(c: char) -> (r: Option<u8>)
    ensures
        r matches Some(d) ==> digit_value(c) == Some(d as int) && d < 10,
        r is None ==> digit_value(c) is None,
{
    if '0' <= c && c <= '9' {
        Some(((c as u32) - ('0' as u32)) as u8)
    } else {
        None
    }
}

/// Reads the unsigned numeral that `chars` holds from `start` on.
fn parse_unsigned(chars: &Vec<char>, start: usize) -> (r: Option<u64>)
    requires
        start <= chars.len(),
    ensures
        r matches Some(m) ==> unsigned_of(chars@.skip(start as int)) == Some(m as nat),
        r is None ==> unsigned_of(chars@.skip(start as int)) is None,
{
    let ghost body = chars@.skip(start as int);
    let n = chars.len();
    let mut i: usize = start;
    let mut whole: u64 = 0;
    proof {
        lemma_find_dot_bounds(body);
        lemma_find_dot_is_dot(body);
    }
    while i < n && chars[i] != '.'
        invariant
            start <= i <= n,
            n == chars.len(),
            body == chars@.skip(start as int),
            0 <= find_dot(body) <= body.len(),
            find_dot(body) < body.len() ==> body[find_dot(body)] == '.',
            forall|j: int| 0 <= j < i - start ==> body[j] != '.',
            all_digits(body.take(i - start)),
            whole == number_of(body.take(i - start)),
            whole <= 92_233_720_368,
        decreases n - i,
    {
        let ghost k = i - start;
        let ghost d0 = find_dot(body);
        proof {
            assert(body[k] == chars[i as int]);
            assert(body.take(k + 1).drop_last() == body.take(k));
            assert(body.take(k + 1).last() == body[k]);
            assert(d0 > k);
        }
        match digit_of(chars[i]) {
            Some(d) => {
                let next: u64 = whole * 10 + d as u64;
                proof {
                    assert forall|j: int| 0 <= j < k + 1 implies (#[trigger] digit_value(
                        body.take(k + 1)[j],
                    )) is Some by {
                        if j < k {
                            assert(body.take(k + 1)[j] == body.take(k)[j]);
                        }
                    }
                    assert(next == number_of(body.take(k + 1)));
                }
                if next > 92_233_720_368 {
                    proof {
                        if all_digits(body.take(d0)) {
                            lemma_number_of_prefix(body.take(d0), k + 1);
                            assert(body.take(d0).take(k + 1) == body.take(k + 1));
                        }
                    }
                    return None;
                }
                whole = next;
            },
            None => {
                proof {
                    assert(body.take(d0)[k] == body[k]);
                    assert(digit_value(body.take(d0)[k]) is None);
                }
                return None;
            },
        }
        i = i + 1;
    }
    let ghost d = i - start;
    proof {
        if i < n {
            assert(body[d] == chars[i as int]);
        }
        lemma_find_dot(body, d);
    }
    let whole_len = i - start;
    let mut frac: u64 = 0;
    let mut frac_len: usize = 0;
    let ghost f = if d < body.len() {
        body.skip(d + 1)
    } else {
        Seq::empty()
    };
    if i < n {
        i = i + 1;
        let first = i;
        let mut weight: u64 = 10_000_000;
        proof {
            assert(f.skip(0) == f);
            assert(f.take(0).len() == 0);
        }
        while i < n
            invariant
                start < first <= i <= n,
                n == chars.len(),
                body == chars@.skip(start as int),
                f == body.skip(first - start),
                find_dot(body) == first - start - 1,
                frac_len == i - first,
                all_digits(f.take(i - first)),
                weight <= 10_000_000,
                frac + fraction_units(f.skip(i - first), weight as nat) == fraction_units(
                    f,
                    10_000_000,
                ),
                frac + 10 * weight <= 100_000_000,
            decreases n - i,
        {
            let ghost k = i - first;
            proof {
                assert(f[k] == chars[i as int]);
                assert(f.skip(k)[0] == f[k]);
                assert(f.skip(k).drop_first() == f.skip(k + 1));
            }
            match digit_of(chars[i]) {
                Some(d) => {
                    proof {
                        assert forall|j: int| 0 <= j < k + 1 implies (#[trigger] digit_value(
                            f.take(k + 1)[j],
                        )) is Some by {
                            if j < k {
                                assert(f.take(k + 1)[j] == f.take(k)[j]);
                            }
                        }
                        assert(d as u64 * weight <= 9 * weight) by (nonlinear_arith)
                            requires
                                d < 10,
                        ;
                        if weight == 0 {
                            assert(d as u64 * weight == 0) by (nonlinear_arith)
                                requires
                                    weight == 0,
                            ;
                        }
                    }
                    frac = frac + d as u64 * weight;
                    weight = weight / 10;
                },
                None => {
                    proof {
                        assert(digit_value(f[k]) is None);
                    }
                    return None;
                },
            }
            i = i + 1;
            frac_len = frac_len + 1;
        }
        proof {
            assert(f.take(f.len() as int) == f);
            assert(f.skip(f.len() as int).len() == 0);
        }
    }
    proof {
        assert(all_digits(f));
        assert(frac == fraction_units(f, 10_000_000));
        assert(whole_len == body.take(d).len());
        assert(frac_len == f.len());
    }
    if whole_len + frac_len == 0 {
        return None;
    }
    if whole == 92_233_720_368 && frac > 54_775_807 {
        return None;
    }
    Some(whole * SCALE + frac)
}

proof fn lemma_find_dot_bounds(s: Seq<char>)
    ensures
        0 <= find_dot(s) <= s.len(),
    decreases s.len(),
{
    if s.len() > 0 && s[0] != '.' {
        lemma_find_dot_bounds(s.drop_first());
    }
}

proof fn lemma_find_dot_is_dot(s: Seq<char>)
    ensures
        find_dot(s) < s.len() ==> s[find_dot(s)] == '.',
        forall|j: int| 0 <= j < find_dot(s) ==> s[j] != '.',
    decreases s.len(),
{
    if s.len() > 0 && s[0] != '.' {
        let t = s.drop_first();
        lemma_find_dot_is_dot(t);
        lemma_find_dot_bounds(t);
        assert forall|j: int| 0 <= j < find_dot(s) implies s[j] != '.' by {
            if j > 0 {
                assert(s[j] == t[j - 1]);
            }
        }
    }
}

} // verus!
