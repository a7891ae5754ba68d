//! Text operations on character sequences, and the std text functions that
//! the transforms rely on.

use vstd::prelude::*;

verus! {

/// What `str::to_lowercase` yields for a string.
pub uninterp spec fn lower_of(s: Seq<char>) -> Seq<char>;

/// What `str::to_uppercase` yields for a string.
pub uninterp spec fn upper_of(s: Seq<char>) -> Seq<char>;

/// Whether a character has Unicode's `Uppercase` property (`char::is_uppercase`).
pub uninterp spec fn is_upper(c: char) -> bool;

/// The characters that `char::to_lowercase` yields for one character.
pub uninterp spec fn char_lower_of(c: char) -> Seq<char>;

/// The characters that `char::to_uppercase` yields for one character.
pub uninterp spec fn char_upper_of(c: char) -> Seq<char>;

/// Every non-overlapping occurrence of `from` in `s`, found left to right,
/// replaced by `to`. An empty `from` matches before every character and at
/// the end.
pub open spec fn replace_all(s: Seq<char>, from: Seq<char>, to: Seq<char>) -> Seq<char>
    decreases s.len(),
{
    if from.len() == 0 {
        if s.len() == 0 {
            to
        } else {
            to + seq![s[0]] + replace_all(s.drop_first(), from, to)
        }
    } else if s.len() < from.len() {
        s
    } else if s.subrange(0, from.len() as int) == from {
        to + replace_all(s.subrange(from.len() as int, s.len() as int), from, to)
    } else {
        seq![s[0]] + replace_all(s.drop_first(), from, to)
    }
}

/// Whether `pat` occurs in `s` as a contiguous run.
pub open spec fn occurs_in(s: Seq<char>, pat: Seq<char>) -> bool {
    exists|i: int| 0 <= i && i + pat.len() <= s.len() && #[trigger] s.subrange(i, i + pat.len()) == pat
}

/// The pieces of `parts`, joined in order.
pub open spec fn concat_all(parts: Seq<Seq<char>>) -> Seq<char>
    decreases parts.len(),
{
    if parts.len() == 0 {
        Seq::empty()
    } else {
        concat_all(parts.drop_last()) + parts.last()
    }
}

/// A replace whose pattern does not occur leaves the text as it was.
pub proof fn lemma_replace_absent(s: Seq<char>, from: Seq<char>, to: Seq<char>)
    requires
        from.len() > 0,
        !occurs_in(s, from),
    ensures
        replace_all(s, from, to) == s,
    decreases s.len(),
{
    if s.len() >= from.len() {
        assert(s.subrange(0int, 0int + from.len()) != from);
        let t = s.drop_first();
        assert(!occurs_in(t, from)) by {
            if occurs_in(t, from) {
                let i = choose|i: int| 0 <= i && i + from.len() <= t.len() && #[trigger] t.subrange(i, i + from.len()) == from;
                assert(s.subrange(i + 1, i + 1 + from.len()) =~= t.subrange(i, i + from.len()));
            }
        }
        lemma_replace_absent(t, from, to);
        assert(seq![s[0]] + t =~= s);
    }
}

/// Replacing a single character by text without it leaves none of it.
pub proof fn lemma_replace_char_removes(s: Seq<char>, c: char, to: Seq<char>)
    requires
        !to.contains(c),
    ensures
        !replace_all(s, seq![c], to).contains(c),
    decreases s.len(),
{
    if s.len() >= 1 {
        let rest = s.subrange(1, s.len() as int);
        assert(s.drop_first() =~= rest);
        lemma_replace_char_removes(rest, c, to);
        let r = replace_all(rest, seq![c], to);
        if s.subrange(0, 1) == seq![c] {
            assert forall|i: int| 0 <= i < (to + r).len() implies (to + r)[i] != c by {
                if i < to.len() {
                    assert(to[i] == (to + r)[i]);
                } else {
                    assert(r[i - to.len()] == (to + r)[i]);
                }
            }
        } else {
            assert(s[0] != c) by {
                if s[0] == c {
                    assert(s.subrange(0, 1) =~= seq![c]);
                }
            }
            assert forall|i: int| 0 <= i < (seq![s[0]] + r).len() implies (seq![s[0]] + r)[i] != c by {
                if i >= 1 {
                    assert(r[i - 1] == (seq![s[0]] + r)[i]);
                }
            }
        }
    }
}

/// Relies on `str::to_lowercase`: the result depends on the characters alone.
#[verifier::external_body]
pub(crate) fn lowercase(s: &str) -> (r: String)
    ensures
        r@ == lower_of(s@),
{
    s.to_lowercase()
}

/// Relies on `str::to_uppercase`: the result depends on the characters alone.
#[verifier::external_body]
pub(crate) fn uppercase(s: &str) -> (r: String)
    ensures
        r@ == upper_of(s@),
{
    s.to_uppercase()
}

/// Relies on `char::is_uppercase`: a property of the character alone.
#[verifier::external_body]
pub(crate) fn char_is_uppercase(c: char) -> (r: bool)
    ensures
        r == is_upper(c),
{
    c.is_uppercase()
}

/// Relies on `char::to_lowercase`: the characters it yields, collected.
#[verifier::external_body]
pub(crate) fn char_to_lowercase(c: char) -> (r: String)
    ensures
        r@ == char_lower_of(c),
{
    c.to_lowercase().collect()
}

/// Relies on `char::to_uppercase`: the characters it yields, collected.
#[verifier::external_body]
pub(crate) fn char_to_uppercase(c: char) -> (r: String)
    ensures
        r@ == char_upper_of(c),
{
    c.to_uppercase().collect()
}

/// Relies on `String::from(char)`: a string of that one character.
#[verifier::external_body]
pub(crate) fn char_to_string(c: char) -> (r: String)
    ensures
        r@ == seq![c],
{
    String::from(c)
}

/// Relies on `str::replace` with a `&str` pattern: all non-overlapping
/// matches, left to right, are replaced.
#[verifier::external_body]
pub(crate) fn replace_text(s: &str, from: &str, to: &str) -> (r: String)
    ensures
        r@ == replace_all(s@, from@, to@),
{
    s.replace(from, to)
}

/// Whether `s` holds exactly the characters of `t`.
pub fn same_text(s: &str, t: &str) -> (r: bool)
    ensures
        r == (s@ == t@),
{
    let n = s.unicode_len();
    if n != t.unicode_len() {
        return false;
    }
    let mut i: usize = 0;
    while i < n
        invariant
            n == s@.len(),
            n == t@.len(),
            i <= n,
            forall|j: int| 0 <= j < i ==> s@[j] == t@[j],
        decreases n - i,
    {
        if s.get_char(i) != t.get_char(i) {
            return false;
        }
        i = i + 1;
    }
    assert(s@ =~= t@);
    true
}

} // verus!
