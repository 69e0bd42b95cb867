//! Where a value first occurs in a sequence.

use vstd::prelude::*;

verus! {

/// A position that holds `x` and has no `x` before it is the first
/// occurrence of `x`.
pub proof fn lemma_first_occurrence<T>(s: Seq<T>, x: T, i: int)
    requires
        0 <= i < s.len(),
        s[i] == x,
        forall|j: int| 0 <= j < i ==> s[j] != x,
    ensures
        s.index_of_first(x) == Some(i),
{
    s.index_of_first_ensures(x);
    assert(s.contains(x));
    let k = s.index_of_first(x).unwrap();
    assert(k == i) by {
        if k < i {
            assert(s[k] != x);
        }
    }
}

/// A value that stands at no position has no first occurrence.
pub proof fn lemma_no_occurrence<T>(s: Seq<T>, x: T)
    requires
        forall|j: int| 0 <= j < s.len() ==> s[j] != x,
    ensures
        s.index_of_first(x) is None,
{
    s.index_of_first_ensures(x);
}

/// What the first occurrence says of the sequence: it holds the value, and
/// no earlier position does. Without one, no position does.
pub proof fn lemma_occurrence_facts<T>(s: Seq<T>, x: T)
    ensures
        match s.index_of_first(x) {
            Some(i) => 0 <= i < s.len() && s[i] == x && forall|j: int| 0 <= j < i ==> s[j] != x,
            None => forall|j: int| 0 <= j < s.len() ==> s[j] != x,
        },
{
    s.index_of_first_ensures(x);
}

} // verus!
