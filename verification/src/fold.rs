use vstd::prelude::*;
use vstd::multiset::Multiset;

verus! {

broadcast use vstd::multiset::group_multiset_axioms;

/// The sum of `f` over every element of `m`, counted with multiplicity.
pub open spec fn weighted_sum<V>(m: Multiset<V>, f: spec_fn(V) -> int) -> int
    decreases m.len(),
{
    if m.len() == 0 {
        0
    } else {
        f(m.choose()) + weighted_sum(m.remove(m.choose()), f)
    }
}

/// The sum may peel off any element of the multiset, not only the one the
/// definition picks.
pub proof fn lemma_weighted_sum_remove<V>(m: Multiset<V>, f: spec_fn(V) -> int, y: V)
    requires
        m.count(y) > 0,
    ensures
        weighted_sum(m, f) == f(y) + weighted_sum(m.remove(y), f),
    decreases m.len(),
{
    let z = m.choose();
    assert(m.len() > 0);
    if z == y {
    } else {
        assert(m.remove(z).count(y) > 0);
        lemma_weighted_sum_remove(m.remove(z), f, y);
        assert(m.remove(y).count(z) > 0);
        lemma_weighted_sum_remove(m.remove(y), f, z);
        assert(m.remove(z).remove(y) =~= m.remove(y).remove(z));
    }
}

/// Inserting an element adds its weight to the sum.
pub proof fn lemma_weighted_sum_insert<V>(m: Multiset<V>, f: spec_fn(V) -> int, y: V)
    ensures
        weighted_sum(m.insert(y), f) == weighted_sum(m, f) + f(y),
{
    lemma_weighted_sum_remove(m.insert(y), f, y);
    assert(m.insert(y).remove(y) =~= m);
}

/// The sum of a singleton is the weight of its one element.
pub proof fn lemma_weighted_sum_singleton<V>(v: V, f: spec_fn(V) -> int)
    ensures
        weighted_sum(Multiset::singleton(v), f) == f(v),
{
    lemma_weighted_sum_insert(Multiset::empty(), f, v);
    assert(Multiset::empty().insert(v) =~= Multiset::singleton(v));
}

/// The sum distributes over multiset union.
pub proof fn lemma_weighted_sum_add<V>(a: Multiset<V>, b: Multiset<V>, f: spec_fn(V) -> int)
    ensures
        weighted_sum(a.add(b), f) == weighted_sum(a, f) + weighted_sum(b, f),
    decreases b.len(),
{
    if b.len() == 0 {
        assert(a.add(b) =~= a);
    } else {
        let y = b.choose();
        lemma_weighted_sum_remove(b, f, y);
        lemma_weighted_sum_add(a, b.remove(y), f);
        assert(a.add(b).count(y) > 0);
        lemma_weighted_sum_remove(a.add(b), f, y);
        assert(a.add(b).remove(y) =~= a.add(b.remove(y)));
    }
}

} // verus!
