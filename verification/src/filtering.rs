//! Facts about `Seq::filter` that the store's proofs rest on: a filtered
//! sequence keeps the order of its source, and two filters in a row are one.

use vstd::prelude::*;

verus! {

/// The index in `s` of the element that stands at index `k` of `s.filter(p)`.
pub open spec fn source_index<A>(s: Seq<A>, p: spec_fn(A) -> bool, k: int) -> int
    decreases s.len(),
{
    if s.len() == 0 {
        0
    } else if p(s.last()) && k == s.drop_last().filter(p).len() {
        s.len() - 1
    } else {
        source_index(s.drop_last(), p, k)
    }
}

/// Every element of a filtered sequence comes from the source, and elements
/// stand in the filtered sequence in the order in which they stand in the
/// source.
pub proof fn lemma_filter_source<A>(s: Seq<A>, p: spec_fn(A) -> bool)
    ensures
        forall|k: int|
            0 <= k < s.filter(p).len() ==> 0 <= #[trigger] source_index(s, p, k) < s.len()
                && s[source_index(s, p, k)] == s.filter(p)[k],
        forall|k1: int, k2: int|
            0 <= k1 < k2 < s.filter(p).len() ==> #[trigger] source_index(s, p, k1)
                < #[trigger] source_index(s, p, k2),
    decreases s.len(),
{
    reveal(Seq::filter);
    if s.len() > 0 {
        let t = s.drop_last();
        lemma_filter_source(t, p);
        assert forall|k: int| 0 <= k < s.filter(p).len() implies 0 <= #[trigger] source_index(
            s,
            p,
            k,
        ) < s.len() && s[source_index(s, p, k)] == s.filter(p)[k] by {
            if p(s.last()) && k == t.filter(p).len() {
            } else {
                assert(0 <= source_index(t, p, k) < t.len());
                assert(t[source_index(t, p, k)] == t.filter(p)[k]);
            }
        }
        assert forall|k1: int, k2: int|
            0 <= k1 < k2 < s.filter(p).len() implies #[trigger] source_index(s, p, k1)
            < #[trigger] source_index(s, p, k2) by {
            assert(0 <= source_index(t, p, k1) < t.len());
            if p(s.last()) && k2 == t.filter(p).len() {
            } else {
                assert(source_index(t, p, k1) < source_index(t, p, k2));
            }
        }
    }
}

/// Every element of the source that the filter accepts stands in the filtered
/// sequence.
pub proof fn lemma_filter_keeps<A>(s: Seq<A>, p: spec_fn(A) -> bool, i: int)
    requires
        0 <= i < s.len(),
        p(s[i]),
    ensures
        exists|k: int| 0 <= k < s.filter(p).len() && #[trigger] s.filter(p)[k] == s[i],
{
    s.lemma_filter_contains(p, i);
    let k = choose|k: int| 0 <= k < s.filter(p).len() && s.filter(p)[k] == s[i];
    assert(s.filter(p)[k] == s[i]);
}

/// Filtering by `p` and then by `q` is filtering by a predicate that holds
/// where both hold.
pub proof fn lemma_filter_twice<A>(
    s: Seq<A>,
    p: spec_fn(A) -> bool,
    q: spec_fn(A) -> bool,
    both: spec_fn(A) -> bool,
)
    requires
        forall|x: A| #[trigger] both(x) == (p(x) && q(x)),
    ensures
        s.filter(p).filter(q) == s.filter(both),
    decreases s.len(),
{
    reveal(Seq::filter);
    if s.len() > 0 {
        let t = s.drop_last();
        lemma_filter_twice(t, p, q, both);
        assert(s == t.push(s.last()));
        t.lemma_filter_push(s.last(), p);
        t.lemma_filter_push(s.last(), both);
        t.filter(p).lemma_filter_push(s.last(), q);
    }
}

/// A filter that accepts nothing leaves nothing.
pub proof fn lemma_filter_none<A>(s: Seq<A>, p: spec_fn(A) -> bool)
    requires
        forall|x: A| !#[trigger] p(x),
    ensures
        s.filter(p) == Seq::<A>::empty(),
    decreases s.len(),
{
    reveal(Seq::filter);
    if s.len() > 0 {
        lemma_filter_none(s.drop_last(), p);
    }
}

/// Filtering the reverse of a sequence gives the reverse of the filtered
/// sequence.
pub proof fn lemma_filter_reverse<A>(s: Seq<A>, p: spec_fn(A) -> bool)
    ensures
        s.reverse().filter(p) == s.filter(p).reverse(),
    decreases s.len(),
{
    reveal(Seq::filter);
    if s.len() == 0 {
        assert(s.reverse() == s);
    } else {
        let t = s.drop_last();
        let x = s.last();
        lemma_filter_reverse(t, p);
        assert(s.reverse() == seq![x] + t.reverse());
        Seq::filter_distributes_over_add(seq![x], t.reverse(), p);
        assert(seq![x] == Seq::<A>::empty().push(x));
        Seq::<A>::empty().lemma_filter_push(x, p);
        assert(Seq::<A>::empty().filter(p) == Seq::<A>::empty());
        if p(x) {
            assert(s.filter(p) == t.filter(p).push(x));
            assert(t.filter(p).push(x).reverse() == seq![x] + t.filter(p).reverse());
        } else {
            assert(Seq::<A>::empty() + t.reverse().filter(p) == t.reverse().filter(p));
        }
    }
}

} // verus!
