//! Small general facts about `Seq::filter` that the registry's loops
//! rest on.

use vstd::prelude::*;

verus! {

/// Filtering a sequence extended by one element keeps the new element
/// exactly when it passes the predicate.
pub proof fn lemma_filter_push<A>(s: Seq<A>, pred: spec_fn(A) -> bool, x: A)
    ensures
        s.push(x).filter(pred) == (if pred(x) {
            s.filter(pred).push(x)
        } else {
            s.filter(pred)
        }),
{
    reveal(Seq::filter);
    let sp = s.push(x);
    assert(sp.drop_last() =~= s);
    assert(sp.last() == x);
}

/// Every element of a filtered sequence comes from the original.
pub proof fn lemma_filter_elems<A>(s: Seq<A>, pred: spec_fn(A) -> bool)
    ensures
        forall|x: A| #[trigger] s.filter(pred).contains(x) ==> s.contains(x),
    decreases s.len(),
{
    reveal(Seq::filter);
    if s.len() > 0 {
        lemma_filter_elems(s.drop_last(), pred);
        assert forall|x: A| #[trigger] s.filter(pred).contains(x) implies s.contains(x) by {
            if s.drop_last().filter(pred).contains(x) {
                assert(s.drop_last().contains(x));
                let k = choose|k: int|
                    0 <= k < s.drop_last().len() && s.drop_last()[k] == x;
                assert(s[k] == x);
            } else {
                assert(s[s.len() - 1] == x);
            }
        }
    }
}

/// A filtered sequence holds exactly the original's elements that pass
/// the predicate.
pub proof fn lemma_filter_contains_iff<A>(s: Seq<A>, pred: spec_fn(A) -> bool)
    ensures
        forall|x: A| #[trigger] s.filter(pred).contains(x) <==> (s.contains(x) && pred(x)),
    decreases s.len(),
{
    reveal(Seq::filter);
    if s.len() > 0 {
        lemma_filter_contains_iff(s.drop_last(), pred);
        assert forall|x: A| #[trigger] s.filter(pred).contains(x) <==> (s.contains(x) && pred(
            x,
        )) by {
            let dl = s.drop_last();
            if s.filter(pred).contains(x) {
                if dl.filter(pred).contains(x) {
                    let k = choose|k: int| 0 <= k < dl.len() && dl[k] == x;
                    assert(s[k] == x);
                } else {
                    assert(s[s.len() - 1] == x);
                }
            }
            if s.contains(x) && pred(x) {
                let k = choose|k: int| 0 <= k < s.len() && s[k] == x;
                if k < s.len() - 1 {
                    assert(dl[k] == x);
                    assert(dl.contains(x));
                    let j = choose|j: int|
                        0 <= j < dl.filter(pred).len() && dl.filter(pred)[j] == x;
                    if pred(s.last()) {
                        assert(s.filter(pred)[j] == x);
                    } else {
                        assert(s.filter(pred)[j] == x);
                    }
                } else {
                    assert(s.last() == x);
                    assert(s.filter(pred).last() == x);
                }
            }
        }
    }
}

} // verus!
