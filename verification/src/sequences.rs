//! Facts about filtered sequences that the loops over rows and files use.

use vstd::prelude::*;

verus! {

/// Filtering one element more either appends that element or changes
/// nothing, according to the predicate.
pub proof fn lemma_filter_take_step<A>(s: Seq<A>, pred: spec_fn(A) -> bool, i: int)
    requires
        0 <= i < s.len(),
    ensures
        s.take(i + 1).filter(pred) == if pred(s[i]) {
            s.take(i).filter(pred).push(s[i])
        } else {
            s.take(i).filter(pred)
        },
{
    reveal(Seq::filter);
    assert(s.take(i + 1).drop_last() =~= s.take(i));
    assert(s.take(i + 1).last() == s[i]);
}

/// No element of a filtered sequence fails the predicate, and every element
/// comes from the sequence that was filtered.
pub proof fn lemma_filter_members<A>(s: Seq<A>, pred: spec_fn(A) -> bool)
    ensures
        forall|k: int| 0 <= k < s.filter(pred).len() ==> pred(#[trigger] s.filter(pred)[k]),
        forall|k: int|
            0 <= k < s.filter(pred).len() ==> s.contains(#[trigger] s.filter(pred)[k]),
        forall|k: int| 0 <= k < s.len() && pred(s[k]) ==> s.filter(pred).contains(#[trigger] s[k]),
    decreases s.len(),
{
    reveal(Seq::filter);
    if s.len() > 0 {
        let front = s.drop_last();
        lemma_filter_members(front, pred);
        let kept = front.filter(pred);
        assert forall|k: int| 0 <= k < s.filter(pred).len() implies s.contains(
            #[trigger] s.filter(pred)[k],
        ) by {
            if k < kept.len() {
                let from = choose|j: int| 0 <= j < front.len() && front[j] == kept[k];
                assert(s[from] == kept[k]);
            } else {
                assert(s[s.len() - 1] == s.filter(pred)[k]);
            }
        }
        assert forall|k: int| 0 <= k < s.len() && pred(s[k]) implies s.filter(pred).contains(
            #[trigger] s[k],
        ) by {
            if k < front.len() {
                assert(front[k] == s[k]);
                let at = choose|j: int| 0 <= j < kept.len() && kept[j] == front[k];
                assert(s.filter(pred)[at] == s[k]);
            } else {
                assert(s.filter(pred)[kept.len() as int] == s[k]);
            }
        }
    }
}

/// Two predicates that agree on every element of a sequence filter it alike.
pub proof fn lemma_filter_agrees<A>(s: Seq<A>, p: spec_fn(A) -> bool, q: spec_fn(A) -> bool)
    requires
        forall|k: int| 0 <= k < s.len() ==> p(#[trigger] s[k]) == q(s[k]),
    ensures
        s.filter(p) == s.filter(q),
    decreases s.len(),
{
    reveal(Seq::filter);
    if s.len() > 0 {
        let front = s.drop_last();
        assert forall|k: int| 0 <= k < front.len() implies p(#[trigger] front[k]) == q(
            front[k],
        ) by {
            assert(front[k] == s[k]);
        }
        lemma_filter_agrees(front, p, q);
        assert(s.last() == s[s.len() - 1]);
    }
}

/// A sequence whose elements all pass the predicate is its own filtering.
pub proof fn lemma_filter_keeps_all<A>(s: Seq<A>, pred: spec_fn(A) -> bool)
    requires
        forall|k: int| 0 <= k < s.len() ==> pred(#[trigger] s[k]),
    ensures
        s.filter(pred) == s,
    decreases s.len(),
{
    reveal(Seq::filter);
    if s.len() > 0 {
        let front = s.drop_last();
        assert forall|k: int| 0 <= k < front.len() implies pred(#[trigger] front[k]) by {
            assert(front[k] == s[k]);
        }
        lemma_filter_keeps_all(front, pred);
        assert(pred(s[s.len() - 1]));
        assert(front.push(s.last()) =~= s);
    }
}

/// Filtering twice keeps what passes both predicates.
pub proof fn lemma_filter_twice<A>(s: Seq<A>, first: spec_fn(A) -> bool, second: spec_fn(A) -> bool)
    ensures
        s.filter(first).filter(second) == s.filter(|x: A| first(x) && second(x)),
    decreases s.len(),
{
    reveal(Seq::filter);
    if s.len() > 0 {
        let front = s.drop_last();
        lemma_filter_twice(front, first, second);
        if first(s.last()) {
            front.filter(first).lemma_filter_push(s.last(), second);
        }
    }
}

} // verus!
