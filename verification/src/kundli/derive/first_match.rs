//! The first element of a sequence that satisfies a predicate, as the
//! derivations scan their inputs front to back and stop at the first hit.

use vstd::prelude::*;

verus! {

/// Index of the first element of `s` satisfying `pred`, if any.
pub open spec fn first_match<T>(s: Seq<T>, pred: spec_fn(T) -> bool) -> Option<int>
    decreases s.len(),
{
    if s.len() == 0 {
        None
    } else {
        match first_match(s.drop_last(), pred) {
            Some(i) => Some(i),
            None => if pred(s.last()) {
                Some(s.len() - 1)
            } else {
                None
            },
        }
    }
}

/// A first match of a prefix stays the first match of every longer prefix.
pub proof fn lemma_first_match_stable<T>(s: Seq<T>, pred: spec_fn(T) -> bool, n: int)
    requires
        0 <= n <= s.len(),
        first_match(s.take(n), pred) is Some,
    ensures
        first_match(s, pred) == first_match(s.take(n), pred),
    decreases s.len() - n,
{
    if n == s.len() {
        assert(s.take(n) =~= s);
    } else {
        assert(s.take(n + 1).drop_last() =~= s.take(n));
        lemma_first_match_stable(s, pred, n + 1);
    }
}

/// Extends a scan that found nothing in `s.take(i)` by one element.
pub proof fn lemma_first_match_step<T>(s: Seq<T>, pred: spec_fn(T) -> bool, i: int)
    requires
        0 <= i < s.len(),
        first_match(s.take(i), pred) is None,
    ensures
        pred(s[i]) ==> first_match(s, pred) == Some(i),
        !pred(s[i]) ==> first_match(s.take(i + 1), pred) is None,
{
    assert(s.take(i + 1).drop_last() =~= s.take(i));
    if pred(s[i]) {
        lemma_first_match_stable(s, pred, i + 1);
    }
}

/// A scan of the whole sequence is a scan of its full prefix.
pub proof fn lemma_first_match_full<T>(s: Seq<T>, pred: spec_fn(T) -> bool)
    ensures
        first_match(s.take(s.len() as int), pred) == first_match(s, pred),
{
    assert(s.take(s.len() as int) =~= s);
}

/// A first match satisfies the predicate and no earlier element does.
pub proof fn lemma_first_match_spec<T>(s: Seq<T>, pred: spec_fn(T) -> bool)
    ensures
        match first_match(s, pred) {
            Some(i) => 0 <= i < s.len() && pred(s[i]) && forall|j: int|
                0 <= j < i ==> !pred(#[trigger] s[j]),
            None => forall|j: int| 0 <= j < s.len() ==> !pred(#[trigger] s[j]),
        },
    decreases s.len(),
{
    if s.len() > 0 {
        lemma_first_match_spec(s.drop_last(), pred);
        assert forall|j: int| 0 <= j < s.len() - 1 implies s[j] == s.drop_last()[j] by {}
    }
}

} // verus!
