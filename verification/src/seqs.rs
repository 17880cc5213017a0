//! Sequence lemmas shared by the repository queries: stepping a filter
//! through a prefix, and insertion seen through a multiset.

use vstd::prelude::*;

verus! {

/// Filtering a one-longer prefix keeps the shorter prefix's result and
/// appends the new element exactly when the predicate accepts it.
pub proof fn lemma_filter_take_step<A>(s: Seq<A>, pred: spec_fn(A) -> bool, i: int)
    requires
        0 <= i < s.len(),
    ensures
        s.take(i + 1).filter(pred) == if pred(s[i]) {
            s.take(i).filter(pred).push(s[i])
        } else {
            s.take(i).filter(pred)
        },
{
    reveal(Seq::filter);
    assert(s.take(i + 1).drop_last() =~= s.take(i));
    assert(s.take(i + 1).last() == s[i]);
}

/// Inserting anywhere in a sequence inserts into its multiset.
pub proof fn lemma_to_multiset_insert<A>(s: Seq<A>, i: int, x: A)
    requires
        0 <= i <= s.len(),
    ensures
        s.insert(i, x).to_multiset() =~= s.to_multiset().insert(x),
{
    broadcast use vstd::seq_lib::group_to_multiset_ensures;
    broadcast use vstd::multiset::group_multiset_axioms;

    let t = s.insert(i, x);
    assert(t.remove(i) =~= s);
    assert(t[i] == x);
    assert(t.remove(i).to_multiset() =~= t.to_multiset().remove(x));
    assert(t.to_multiset().count(x) > 0) by {
        assert(t.contains(x));
    }
    assert forall|a: A| t.to_multiset().count(a) == #[trigger] s.to_multiset().insert(x).count(a)
        by {
        if a == x {
            assert(s.to_multiset().count(x) == t.to_multiset().remove(x).count(x));
        } else {
            assert(s.to_multiset().count(a) == t.to_multiset().remove(x).count(a));
        }
    }
    assert(t.to_multiset() =~= s.to_multiset().insert(x));
}

} // verus!
