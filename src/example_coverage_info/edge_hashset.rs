use std::collections::HashSet;

use vstd::prelude::*;

use super::CoverageTracker;
use crate::sizes::heap_size_hash_u128;
use crate::stream::{
    edges_of, inserted, last_of, lemma_inserted_finite, lemma_map_values_push,
    lemma_push_drop_last,
};

verus! {

broadcast use vstd::std_specs::hash::group_hash_axioms;

/// The single integer that stands for the edge from `from` to `to`.
pub open spec fn edge_key(e: (usize, usize)) -> u128 {
    (e.0 * 0x1_0000_0000_0000_0000 + e.1) as u128
}

/// The keys of the edges of a stream, in order.
pub open spec fn edge_keys(s: Seq<usize>) -> Seq<u128> {
    edges_of(s).map_values(|e: (usize, usize)| edge_key(e))
}

/// Distinct edges have distinct keys.
pub proof fn lemma_edge_key_injective(e1: (usize, usize), e2: (usize, usize))
    ensures
        edge_key(e1) == edge_key(e2) <==> e1 == e2,
{
}

fn key_of(from: usize, to: usize) -> (r: u128)
    ensures
        r == edge_key((from, to)),
{
    (from as u128) * 0x1_0000_0000_0000_0000u128 + (to as u128)
}

/// Keeps the set of distinct edges between consecutive blocks, in a hash set
/// keyed by `edge_key`; the first block makes an edge from the sentinel 0.
pub struct EdgeHashSetCoverageInfo {
    hive_slide: usize,
    last_block: usize,
    edge_set: HashSet<u128>,
    history: Ghost<Seq<usize>>,
}

impl EdgeHashSetCoverageInfo {
    pub fn new(hive_slide: usize) -> (r: Self)
        ensures
            r.wf(),
            r.fed() == Seq::<usize>::empty(),
            r.slide() == hive_slide,
    {
        let r = EdgeHashSetCoverageInfo {
            hive_slide,
            last_block: 0,
            edge_set: HashSet::with_capacity(1000),
            history: Ghost(Seq::empty()),
        };
        assert(edge_keys(r.history@) =~= Seq::empty());
        r
    }

    /// Whether the edge from `from` to `to` was seen.
    pub fn contains_edge(&self, from: usize, to: usize) -> (r: bool)
        requires
            self.wf(),
        ensures
            r == inserted(edge_keys(self.fed())).contains(edge_key((from, to))),
    {
        let k = key_of(from, to);
        self.edge_set.contains(&k)
    }
}

impl CoverageTracker for EdgeHashSetCoverageInfo {
    closed spec fn fed(&self) -> Seq<usize> {
        self.history@
    }

    closed spec fn slide(&self) -> usize {
        self.hive_slide
    }

    closed spec fn wf(&self) -> bool {
        &&& self.edge_set@ == inserted(edge_keys(self.history@))
        &&& self.last_block == last_of(self.history@)
    }

    open spec fn value_count(&self) -> nat {
        inserted(edge_keys(self.fed())).len()
    }

    open spec fn byte_estimate(&self, bytes: nat) -> bool {
        bytes >= 17 * inserted(edge_keys(self.fed())).len()
    }

    open spec fn label() -> Seq<char> {
        "EdgeHashSetCoverageInfo"@
    }

    fn name(&self) -> (r: &'static str) {
        "EdgeHashSetCoverageInfo"
    }

    fn record_block(&mut self, block: usize) {
        let last = self.last_block;
        self.last_block = block;
        proof {
            let h = self.history@;
            lemma_push_drop_last(h, block);
            lemma_map_values_push(edges_of(h), (last, block), |e: (usize, usize)| edge_key(e));
            lemma_push_drop_last(edge_keys(h), edge_key((last, block)));
        }
        let k = key_of(last, block);
        self.edge_set.insert(k);
        self.history = Ghost(self.history@.push(block));
    }

    fn report_sizes(&self) -> (r: (usize, usize)) {
        proof {
            lemma_inserted_finite(edge_keys(self.history@));
        }
        (self.edge_set.len(), heap_size_hash_u128(&self.edge_set))
    }
}

} // verus!
