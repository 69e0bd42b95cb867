//! Splitting message text at spaces and matching command prefixes.

use crate::occurrence::{lemma_first_occurrence, lemma_no_occurrence};
use vstd::prelude::*;
use vstd::std_specs::iter::IteratorSpec;

verus! {

/// `s` cut at its first space: what stands before it and what follows it,
/// the space itself dropped. `None` where `s` holds no space.
pub open spec fn split_at_space(s: Seq<char>) -> Option<(Seq<char>, Seq<char>)> {
    match s.index_of_first(' ') {
        Some(i) => Some((s.subrange(0, i), s.subrange(i + 1, s.len() as int))),
        None => None,
    }
}

/// Whether `text` begins with `prefix`.
pub fn starts_with(text: &str, prefix: &str) -> (r: bool)
    ensures
        r == prefix@.is_prefix_of(text@),
{
    let n: usize = prefix.unicode_len();
    let m: usize = text.unicode_len();
    if n > m {
        return false;
    }
    let mut i: usize = 0;
    while i < n
        invariant
            i <= n <= m,
            n == prefix@.len(),
            m == text@.len(),
            forall|j: int| 0 <= j < i ==> text@[j] == prefix@[j],
        decreases n - i,
    {
        if text.get_char(i) != prefix.get_char(i) {
            return false;
        }
        i += 1;
    }
    assert(text@.subrange(0, n as int) =~= prefix@);
    true
}

/// Cuts `text` at its first space.
pub fn split_once(text: &str) -> (r: Option<(&str, &str)>)
    ensures
        match split_at_space(text@) {
            Some((head, tail)) => r is Some && r.unwrap().0@ == head && r.unwrap().1@ == tail,
            None => r is None,
        },
{
    let m: usize = text.unicode_len();
    let mut chars = text.chars();
    let mut i: usize = 0;
    let mut found = false;
    while !found && i < m
        invariant
            i <= m,
            m == text@.len(),
            !found ==> chars.remaining() == text@.skip(i as int),
            forall|j: int| 0 <= j < i ==> text@[j] != ' ',
            found ==> i < m && text@[i as int] == ' ',
        decreases m - i + if found { 0int } else { 1int },
    {
        let ghost before = chars;
        let next = chars.next();
        assert(next == Some(text@[i as int])) by {
            assert(before.remaining()[0] == text@[i as int]);
        }
        assert(chars.remaining() == text@.skip(i + 1)) by {
            assert(text@.skip(i as int).drop_first() =~= text@.skip(i + 1));
        }
        match next {
            Some(c) => {
                if c == ' ' {
                    found = true;
                } else {
                    i += 1;
                }
            },
            None => {},
        }
    }
    if found {
        proof {
            lemma_first_occurrence(text@, ' ', i as int);
        }
        Some((text.substring_char(0, i), text.substring_char(i + 1, m)))
    } else {
        proof {
            lemma_no_occurrence(text@, ' ');
        }
        None
    }
}

} // verus!
