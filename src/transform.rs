//! The case transforms that a modifier applies to the value before it.

use vstd::prelude::*;
use crate::text::{
    char_is_uppercase, char_lower_of, char_to_lowercase, char_to_string, char_to_uppercase,
    char_upper_of, is_upper, lower_of, lowercase,
};

verus! {

/// The character before position `i` of `s`; before the first one, `'_'`.
pub open spec fn prev_of(s: Seq<char>, i: int) -> char {
    if i <= 0 {
        '_'
    } else {
        s[i - 1]
    }
}

/// `s` with `'_'` put before each uppercase character whose predecessor is
/// not `'_'` (the start of `s` counts as `'_'`).
pub open spec fn snake_marked(s: Seq<char>) -> Seq<char>
    decreases s.len(),
{
    if s.len() == 0 {
        Seq::empty()
    } else {
        let c = s.last();
        let piece = if is_upper(c) && prev_of(s, s.len() - 1) != '_' {
            seq!['_', c]
        } else {
            seq![c]
        };
        snake_marked(s.drop_last()) + piece
    }
}

/// What the `snake` modifier makes of `s`.
pub open spec fn snake_spec(s: Seq<char>) -> Seq<char> {
    lower_of(snake_marked(s))
}

/// The camel-case scan of `s`: the output so far and whether the first word
/// is still to be lowercased. Underscores are dropped, except (with
/// `keep_edge`) one whose predecessor is `'_'` or that starts `s`. A
/// character after `'_'` starts a word and is uppercased (lowercased, for the
/// first word when `lower_first`); a character after an uppercase one is
/// lowercased; any other is kept.
pub open spec fn camel_scan(s: Seq<char>, lower_first: bool, keep_edge: bool) -> (Seq<char>, bool)
    decreases s.len(),
{
    if s.len() == 0 {
        (Seq::empty(), lower_first)
    } else {
        let (out, pending) = camel_scan(s.drop_last(), lower_first, keep_edge);
        let c = s.last();
        let prev = prev_of(s, s.len() - 1);
        if c != '_' {
            if prev == '_' {
                if pending {
                    (out + char_lower_of(c), false)
                } else {
                    (out + char_upper_of(c), pending)
                }
            } else if is_upper(prev) {
                (out + char_lower_of(c), pending)
            } else {
                (out.push(c), pending)
            }
        } else if keep_edge && prev == '_' {
            (out.push(c), pending)
        } else {
            (out, pending)
        }
    }
}

/// What the `camel` and `upper_camel` modifiers make of `s`.
pub open spec fn camel_spec(s: Seq<char>) -> Seq<char> {
    camel_scan(s, false, false).0
}

/// What the `lower_camel` modifier makes of `s`.
pub open spec fn lower_camel_spec(s: Seq<char>) -> Seq<char> {
    camel_scan(s, true, false).0
}

/// What the `camel_edge` modifier makes of `s`.
pub open spec fn camel_edge_spec(s: Seq<char>) -> Seq<char> {
    camel_scan(s, false, true).0
}

/// The `snake` modifier: an underscore before each uppercase character that
/// does not follow one, then the whole lowercased.
pub fn snake(s: &str) -> (r: String)
    ensures
        r@ == snake_spec(s@),
{
    let n = s.unicode_len();
    let mut acc = String::new();
    let mut prev = '_';
    let mut i: usize = 0;
    while i < n
        invariant
            n == s@.len(),
            i <= n,
            acc@ == snake_marked(s@.take(i as int)),
            prev == prev_of(s@, i as int),
        decreases n - i,
    {
        let ch = s.get_char(i);
        if char_is_uppercase(ch) && prev != '_' {
            let mark = char_to_string('_');
            acc.append(mark.as_str());
        }
        let piece = char_to_string(ch);
        acc.append(piece.as_str());
        proof {
            assert(s@.take(i + 1).drop_last() =~= s@.take(i as int));
        }
        assert(acc@ =~= snake_marked(s@.take(i + 1)));
        prev = ch;
        i = i + 1;
    }
    assert(s@.take(n as int) =~= s@);
    lowercase(acc.as_str())
}

/// The camel-case modifiers: `camel` and `upper_camel` (neither flag),
/// `lower_camel` (`lower_first`) and `camel_edge` (`keep_edge`).
pub fn camelize(s: &str, lower_first: bool, keep_edge: bool) -> (r: String)
    ensures
        r@ == camel_scan(s@, lower_first, keep_edge).0,
{
    let n = s.unicode_len();
    let mut acc = String::new();
    let mut pending = lower_first;
    let mut prev = '_';
    let mut i: usize = 0;
    while i < n
        invariant
            n == s@.len(),
            i <= n,
            (acc@, pending) == camel_scan(s@.take(i as int), lower_first, keep_edge),
            prev == prev_of(s@, i as int),
        decreases n - i,
    {
        let ch = s.get_char(i);
        proof {
            assert(s@.take(i + 1).drop_last() =~= s@.take(i as int));
        }
        if ch != '_' {
            if prev == '_' {
                if pending {
                    let piece = char_to_lowercase(ch);
                    acc.append(piece.as_str());
                    pending = false;
                } else {
                    let piece = char_to_uppercase(ch);
                    acc.append(piece.as_str());
                }
            } else if char_is_uppercase(prev) {
                let piece = char_to_lowercase(ch);
                acc.append(piece.as_str());
            } else {
                let piece = char_to_string(ch);
                acc.append(piece.as_str());
            }
        } else if keep_edge && prev == '_' {
            let piece = char_to_string(ch);
            acc.append(piece.as_str());
        }
        assert((acc@, pending) == camel_scan(s@.take(i + 1), lower_first, keep_edge));
        prev = ch;
        i = i + 1;
    }
    assert(s@.take(n as int) =~= s@);
    acc
}

} // verus!
