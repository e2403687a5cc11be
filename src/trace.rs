use vstd::prelude::*;

verus! {

/// Number of times `x` occurs in `s`.
pub open spec fn occurrences<T>(s: Seq<T>, x: T) -> nat
    decreases s.len(),
{
    if s.len() == 0 {
        0
    } else {
        occurrences(s.drop_last(), x) + if s.last() == x {
            1nat
        } else {
            0nat
        }
    }
}

pub proof fn lemma_occurrences_push<T>(s: Seq<T>, a: T, x: T)
    ensures
        occurrences(s.push(a), x) == occurrences(s, x) + if a == x {
            1nat
        } else {
            0nat
        },
{
    assert(s.push(a).drop_last() =~= s);
}

pub proof fn lemma_occurrences_concat<T>(s: Seq<T>, t: Seq<T>, x: T)
    ensures
        occurrences(s + t, x) == occurrences(s, x) + occurrences(t, x),
    decreases t.len(),
{
    if t.len() == 0 {
        assert(s + t =~= s);
    } else {
        lemma_occurrences_concat(s, t.drop_last(), x);
        assert((s + t).drop_last() =~= s + t.drop_last());
    }
}

/// An element that occurs nowhere has no occurrences.
pub proof fn lemma_occurrences_absent<T>(s: Seq<T>, x: T)
    requires
        forall|i: int| 0 <= i < s.len() ==> s[i] != x,
    ensures
        occurrences(s, x) == 0,
    decreases s.len(),
{
    if s.len() > 0 {
        lemma_occurrences_absent(s.drop_last(), x);
    }
}

} // verus!
