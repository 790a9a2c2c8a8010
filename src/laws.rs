//! Laws of the coverage accumulators, stated over the stream models that
//! their contracts use.

use vstd::prelude::*;

use crate::leb::{uleb, uleb_all};
use crate::stream::{
    edges_of, inserted, lemma_inserted_is_to_set, lemma_push_drop_last, xor_diffs,
};

verus! {

/// The set accumulators do not depend on insertion order: inserting the
/// items of two streams that are permutations of each other gives the same
/// set, and so the same reported count.
pub proof fn law_insertion_order_irrelevant<A>(s1: Seq<A>, s2: Seq<A>)
    requires
        s1.to_multiset() == s2.to_multiset(),
    ensures
        inserted(s1) == inserted(s2),
        inserted(s1).len() == inserted(s2).len(),
{
    broadcast use vstd::seq_lib::to_multiset_contains;

    lemma_inserted_is_to_set(s1);
    lemma_inserted_is_to_set(s2);
    assert forall|x: A| s1.to_set().contains(x) == s2.to_set().contains(x) by {
        assert(s1.contains(x) <==> s1.to_multiset().count(x) > 0);
        assert(s2.contains(x) <==> s2.to_multiset().count(x) > 0);
    }
    assert(s1.to_set() =~= s2.to_set());
}

/// Inserting an item that is already present changes nothing.
pub proof fn law_reinsert_is_noop<A>(s: Seq<A>, x: A)
    requires
        inserted(s).contains(x),
    ensures
        inserted(s.push(x)) == inserted(s),
{
    lemma_push_drop_last(s, x);
    assert(inserted(s.push(x)) =~= inserted(s));
}

/// A stream has one edge per block, and its first edge runs from the
/// sentinel 0 to the first block.
pub proof fn lemma_edges_of_shape(s: Seq<usize>)
    ensures
        edges_of(s).len() == s.len(),
        s.len() >= 1 ==> edges_of(s)[0] == (0usize, s[0]),
    decreases s.len(),
{
    if s.len() > 0 {
        lemma_edges_of_shape(s.drop_last());
    }
}

/// The edge accumulators record the edge from the sentinel 0 to the first
/// block of every nonempty stream.
pub proof fn law_first_edge_from_sentinel(s: Seq<usize>)
    requires
        s.len() >= 1,
    ensures
        edges_of(s)[0] == (0usize, s[0]),
        inserted(edges_of(s)).contains((0usize, s[0])),
{
    lemma_edges_of_shape(s);
    lemma_inserted_is_to_set(edges_of(s));
    assert(edges_of(s).contains(edges_of(s)[0]));
}

/// A block repeated right after itself adds no XOR difference.
pub proof fn law_xor_repeat_adds_nothing(s: Seq<usize>, a: usize)
    ensures
        xor_diffs(s.push(a).push(a)) == xor_diffs(s.push(a)),
{
    lemma_push_drop_last(s, a);
    lemma_push_drop_last(s.push(a), a);
}

/// Fed `[a, a, b]` with `a != b`, the XOR-difference accumulator writes
/// exactly one value, `b ^ a`.
pub proof fn law_xor_single_change(a: usize, b: usize)
    requires
        a != b,
    ensures
        xor_diffs(seq![a, a, b]) == seq![b ^ a],
        uleb_all(xor_diffs(seq![a, a, b])) == uleb((b ^ a) as nat),
{
    let s1 = seq![a];
    let s2 = seq![a, a];
    let s3 = seq![a, a, b];
    assert(s1.drop_last() =~= Seq::<usize>::empty());
    assert(s2.drop_last() =~= s1);
    assert(s3.drop_last() =~= s2);
    assert(xor_diffs(Seq::<usize>::empty()) == Seq::<usize>::empty());
    assert(xor_diffs(s1) == Seq::<usize>::empty());
    assert(xor_diffs(s2) == Seq::<usize>::empty());
    assert(xor_diffs(s3) =~= seq![b ^ a]);
    let d = seq![b ^ a];
    assert(d.drop_last() =~= Seq::<usize>::empty());
    assert(uleb_all(Seq::<usize>::empty()) == Seq::<u8>::empty());
    assert(uleb_all(d) == Seq::<u8>::empty() + uleb((b ^ a) as nat));
    assert(uleb_all(d) =~= uleb((b ^ a) as nat));
}

/// A stream whose blocks are all equal makes the XOR-difference
/// accumulator write nothing.
pub proof fn law_xor_constant_stream(s: Seq<usize>)
    requires
        forall|i: int, j: int| 0 <= i < s.len() && 0 <= j < s.len() ==> s[i] == s[j],
    ensures
        xor_diffs(s).len() == 0,
        uleb_all(xor_diffs(s)) == Seq::<u8>::empty(),
    decreases s.len(),
{
    if s.len() > 0 {
        let p = s.drop_last();
        assert(forall|i: int, j: int| 0 <= i < p.len() && 0 <= j < p.len() ==> p[i] == p[j]);
        law_xor_constant_stream(p);
        if p.len() > 0 {
            assert(s.last() == s[p.len() - 1]);
        }
    }
}

} // verus!
