//! Facts about filtered sequences that the proofs of the library share.

use vstd::prelude::*;

verus! {

/// Nothing is left of an empty sequence when it is filtered.
pub proof fn lemma_filter_empty<A>(pred: spec_fn(A) -> bool)
    ensures
        Seq::<A>::empty().filter(pred) == Seq::<A>::empty(),
{
    reveal(Seq::filter);
}

/// Filtering a sequence with one more element at its end filters the element too.
pub proof fn lemma_filter_push<A>(s: Seq<A>, last: A, pred: spec_fn(A) -> bool)
    ensures
        s.push(last).filter(pred) == if pred(last) {
            s.filter(pred).push(last)
        } else {
            s.filter(pred)
        },
{
    reveal(Seq::filter);
    assert(s.push(last).drop_last() =~= s);
}

/// A filtered sequence holds an element just where the sequence holds it and the
/// element passes the filter.
pub proof fn lemma_filter_holds<A>(s: Seq<A>, pred: spec_fn(A) -> bool, x: A)
    ensures
        s.filter(pred).contains(x) <==> s.contains(x) && pred(x),
    decreases s.len(),
{
    if s.len() == 0 {
        lemma_filter_empty(pred);
        assert(s =~= Seq::<A>::empty());
    } else {
        let head = s.drop_last();
        let last = s.last();
        assert(s =~= head.push(last));
        lemma_filter_holds(head, pred, x);
        lemma_filter_push(head, last, pred);
        let kept = head.filter(pred);
        if s.contains(x) {
            let i = choose|i: int| 0 <= i < s.len() && s[i] == x;
            if i < head.len() {
                assert(head[i] == x);
            }
        }
        if head.contains(x) {
            let i = choose|i: int| 0 <= i < head.len() && head[i] == x;
            assert(s[i] == x);
        }
        if pred(last) {
            if kept.push(last).contains(x) {
                let i = choose|i: int| 0 <= i < kept.push(last).len() && kept.push(last)[i] == x;
                if i < kept.len() {
                    assert(kept[i] == x);
                }
            }
            if kept.contains(x) {
                let i = choose|i: int| 0 <= i < kept.len() && kept[i] == x;
                assert(kept.push(last)[i] == x);
            }
            if x == last {
                assert(kept.push(last)[kept.len() as int] == x);
                assert(s[s.len() - 1] == x);
            }
        }
    }
}

} // verus!
