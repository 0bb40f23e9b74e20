//! Splitting a chat line into whitespace-separated words.

use vstd::prelude::*;
use crate::text::views_of;

verus! {

/// Whether `c` is white space: the code points that Unicode gives the
/// `White_Space` property.
pub open spec fn is_space(c: char) -> bool {
    let n = c as u32;
    ||| 0x09 <= n <= 0x0D
    ||| n == 0x20
    ||| n == 0x85
    ||| n == 0xA0
    ||| n == 0x1680
    ||| 0x2000 <= n <= 0x200A
    ||| n == 0x2028
    ||| n == 0x2029
    ||| n == 0x202F
    ||| n == 0x205F
    ||| n == 0x3000
}

/// Reading `s` from the left: the words already closed by white space, and
/// the word still open at the end of `s` (empty when `s` is empty or ends
/// in white space).
pub open spec fn scan(s: Seq<char>) -> (Seq<Seq<char>>, Seq<char>)
    decreases s.len(),
{
    if s.len() == 0 {
        (Seq::empty(), Seq::empty())
    } else {
        let (closed, open) = scan(s.drop_last());
        if is_space(s.last()) {
            if open.len() > 0 {
                (closed.push(open), Seq::empty())
            } else {
                (closed, open)
            }
        } else {
            (closed, open.push(s.last()))
        }
    }
}

/// The words of `s`: its maximal runs of characters that are not white
/// space, in order.
pub open spec fn words_of(s: Seq<char>) -> Seq<Seq<char>> {
    let (closed, open) = scan(s);
    if open.len() > 0 {
        closed.push(open)
    } else {
        closed
    }
}

/// Whether a text is free of white space.
pub open spec fn spaceless(w: Seq<char>) -> bool {
    forall|i: int| 0 <= i < w.len() ==> !is_space(#[trigger] w[i])
}

pub fn is_whitespace(c: char) -> (r: bool)
    ensures
        r == is_space(c),
{
    let n: u32 = c as u32;
    (0x09 <= n && n <= 0x0D) || n == 0x20 || n == 0x85 || n == 0xA0 || n == 0x1680 || (0x2000 <= n
        && n <= 0x200A) || n == 0x2028 || n == 0x2029 || n == 0x202F || n == 0x205F || n
        == 0x3000
}

/// Splits `msg` into its words.
pub fn split_whitespace(msg: &str) -> (words: Vec<String>)
    ensures
        views_of(words@) == words_of(msg@),
{
    let mut closed: Vec<String> = Vec::new();
    let mut open = String::new();
    let mut open_len: usize = 0;
    for c in it: msg.chars()
        invariant
            it.seq() == msg@,
            open_len == 0 <==> open@.len() == 0,
            (views_of(closed@), open@) == scan(msg@.take(it.index() as int)),
    {
        proof {
            let i = it.index() as int;
            assert(msg@.take(i + 1).drop_last() == msg@.take(i));
            assert(msg@.take(i + 1).last() == c);
        }
        if is_whitespace(c) {
            if open_len > 0 {
                let ghost before = views_of(closed@);
                closed.push(open);
                assert(views_of(closed@) == before.push(open@));
                open = String::new();
                open_len = 0;
            }
        } else {
            open.push(c);
            if open_len == 0 {
                open_len = 1;
            }
        }
    }
    assert(msg@.take(msg@.len() as int) == msg@);
    if open_len > 0 {
        let ghost before = views_of(closed@);
        closed.push(open);
        assert(views_of(closed@) == before.push(open@));
    }
    closed
}

proof fn lemma_scan(s: Seq<char>)
    ensures
        forall|i: int|
            0 <= i < scan(s).0.len() ==> (#[trigger] scan(s).0[i]).len() > 0 && spaceless(
                scan(s).0[i],
            ),
        spaceless(scan(s).1),
    decreases s.len(),
{
    if s.len() > 0 {
        lemma_scan(s.drop_last());
        let (closed, open) = scan(s.drop_last());
        if is_space(s.last()) {
            if open.len() > 0 {
                let after = closed.push(open);
                assert forall|i: int| 0 <= i < after.len() implies (#[trigger] after[i]).len() > 0
                    && spaceless(after[i]) by {
                    if i < closed.len() {
                        assert(after[i] == closed[i]);
                    }
                }
            }
        } else {
            let after = open.push(s.last());
            assert forall|i: int| 0 <= i < after.len() implies !is_space(#[trigger] after[i]) by {
                if i < open.len() {
                    assert(after[i] == open[i]);
                }
            }
        }
    }
}

/// Every word holds at least one character and no white space.
pub proof fn lemma_words_are_spaceless(s: Seq<char>)
    ensures
        forall|i: int|
            0 <= i < words_of(s).len() ==> (#[trigger] words_of(s)[i]).len() > 0 && spaceless(
                words_of(s)[i],
            ),
{
    lemma_scan(s);
    let (closed, open) = scan(s);
    if open.len() > 0 {
        let all = closed.push(open);
        assert forall|i: int| 0 <= i < all.len() implies (#[trigger] all[i]).len() > 0
            && spaceless(all[i]) by {
            if i < closed.len() {
                assert(all[i] == closed[i]);
            }
        }
    }
}

/// A text without white space is its own only word, and the empty text
/// has no word.
pub proof fn lemma_single_word(s: Seq<char>)
    requires
        spaceless(s),
    ensures
        scan(s) == (Seq::<Seq<char>>::empty(), s),
        s.len() > 0 ==> words_of(s) == seq![s],
        s.len() == 0 ==> words_of(s) == Seq::<Seq<char>>::empty(),
    decreases s.len(),
{
    if s.len() > 0 {
        let t = s.drop_last();
        assert forall|i: int| 0 <= i < t.len() implies !is_space(#[trigger] t[i]) by {
            assert(t[i] == s[i]);
        }
        lemma_single_word(t);
        assert(!is_space(s[s.len() - 1]));
        assert(t.push(s.last()) == s);
        assert(Seq::<Seq<char>>::empty().push(s) == seq![s]);
    } else {
        assert(s == Seq::<char>::empty());
    }
}

} // verus!
