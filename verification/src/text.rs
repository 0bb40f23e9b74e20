//! Text primitives: case conversion, comparison and title casing.
//!
//! Case conversion and title casing follow Unicode tables and an English
//! style guide that are far too large to restate here, so their results are
//! named rather than defined: `lowercase_of`, `uppercase_of`, `titlecase_of`.
//! Nothing in this crate depends on what those results are, only on the
//! fact that equal inputs give equal outputs.

use vstd::prelude::*;
use vstd::string::*;

verus! {

/// The longest name, in characters, that is put in title case.
pub const TITLE_LIMIT: usize = 255;

/// The lowercase form of `s`, as `str::to_lowercase` computes it.
pub uninterp spec fn lowercase_of(s: Seq<char>) -> Seq<char>;

/// The uppercase form of `s`, as `str::to_uppercase` computes it.
pub uninterp spec fn uppercase_of(s: Seq<char>) -> Seq<char>;

/// The title-cased form of `s`, as `titlecase::titlecase` computes it.
pub uninterp spec fn titlecase_of(s: Seq<char>) -> Seq<char>;

/// Trusted: `str::to_lowercase` is a function of the characters of its
/// argument alone; its result is `lowercase_of` of them.
pub assume_specification[ str::to_lowercase ](s: &str) -> (r: String)
    ensures
        r@ == lowercase_of(s@),
;

/// Trusted: `str::to_uppercase` is a function of the characters of its
/// argument alone; its result is `uppercase_of` of them.
pub assume_specification[ str::to_uppercase ](s: &str) -> (r: String)
    ensures
        r@ == uppercase_of(s@),
;

/// Trusted: `String::push` appends exactly the given character.
pub assume_specification[ String::push ](s: &mut String, c: char)
    ensures
        final(s)@ == old(s)@.push(c),
;

/// Trusted: two string slices compare equal exactly when they hold the
/// same characters.
pub assume_specification[ <str as PartialEq>::eq ](a: &str, b: &str) -> (r: bool)
    ensures
        r == (a@ == b@),
;

/// Trusted: `titlecase::titlecase` trims its argument and capitalises it
/// word by word after John Gruber's title style. The result depends on the
/// characters of the argument alone; it is `titlecase_of` of them. The
/// function calls itself once for each bracket, slash or hyphen that it
/// strips from a word, so only a text of bounded length is handed to it.
#[verifier::external_body]
pub(crate) fn title_case(s: &str) -> (r: String)
    requires
        s@.len() <= TITLE_LIMIT,
    ensures
        r@ == titlecase_of(s@),
{
    titlecase::titlecase(s)
}

/// Whether two texts hold the same characters.
pub fn str_eq(a: &str, b: &str) -> (r: bool)
    ensures
        r == (a@ == b@),
{
    *a == *b
}

/// The characters of `s` as a vector.
pub fn chars_of(s: &str) -> (r: Vec<char>)
    ensures
        r@ == s@,
{
    let mut out: Vec<char> = Vec::new();
    for c in it: s.chars()
        invariant
            it.seq() == s@,
            out@ == s@.take(it.index() as int),
    {
        out.push(c);
    }
    assert(s@.take(s@.len() as int) == s@);
    out
}

/// How a name is shown: in title case; a name longer than `TITLE_LIMIT`
/// unchanged.
pub open spec fn title_text(name: Seq<char>) -> Seq<char> {
    if name.len() <= TITLE_LIMIT {
        titlecase_of(name)
    } else {
        name
    }
}

/// How a coin is headed in a reply: its name as a title, then its ticker
/// in capitals between brackets.
pub open spec fn heading(name: Seq<char>, ticker: Seq<char>) -> Seq<char> {
    title_text(name) + " ("@ + uppercase_of(ticker) + ")"@
}

/// The name as a title.
pub fn title(name: &str) -> (r: String)
    ensures
        r@ == title_text(name@),
{
    if name.unicode_len() <= TITLE_LIMIT {
        title_case(name)
    } else {
        String::from_str(name)
    }
}

/// The heading of a coin.
pub fn heading_of(name: &str, ticker: &str) -> (r: String)
    ensures
        r@ == heading(name@, ticker@),
{
    let mut out = title(name);
    out.append(" (");
    out.append(ticker.to_uppercase().as_str());
    out.append(")");
    out
}

/// The views of a sequence of strings, element by element.
pub open spec fn views_of(v: Seq<String>) -> Seq<Seq<char>> {
    Seq::new(v.len(), |i: int| v[i]@)
}

} // verus!
