use std::collections::BTreeSet;

use vstd::prelude::*;

use super::CoverageTracker;
use crate::sizes::heap_size_btree_pair;
use crate::stream::{edges_of, inserted, last_of, lemma_inserted_finite, lemma_push_drop_last};

verus! {

broadcast use {vstd::laws_cmp::group_laws_cmp, vstd::std_specs::btree::group_btree_axioms};

/// Keeps the set of distinct edges between consecutive blocks, in an ordered
/// set; the first block makes an edge from the sentinel 0.
pub struct EdgeBTreeSetCoverageInfo {
    hive_slide: usize,
    last_block: usize,
    edge_set: BTreeSet<(usize, usize)>,
    history: Ghost<Seq<usize>>,
}

impl EdgeBTreeSetCoverageInfo {
    pub fn new(hive_slide: usize) -> (r: Self)
        ensures
            r.wf(),
            r.fed() == Seq::<usize>::empty(),
            r.slide() == hive_slide,
    {
        EdgeBTreeSetCoverageInfo {
            hive_slide,
            last_block: 0,
            edge_set: BTreeSet::new(),
            history: Ghost(Seq::empty()),
        }
    }

    /// Whether the edge from `from` to `to` was seen.
    pub fn contains_edge(&self, from: usize, to: usize) -> (r: bool)
        requires
            self.wf(),
        ensures
            r == inserted(edges_of(self.fed())).contains((from, to)),
    {
        self.edge_set.contains(&(from, to))
    }
}

impl CoverageTracker for EdgeBTreeSetCoverageInfo {
    closed spec fn fed(&self) -> Seq<usize> {
        self.history@
    }

    closed spec fn slide(&self) -> usize {
        self.hive_slide
    }

    closed spec fn wf(&self) -> bool {
        &&& self.edge_set@ == inserted(edges_of(self.history@))
        &&& self.last_block == last_of(self.history@)
    }

    open spec fn value_count(&self) -> nat {
        inserted(edges_of(self.fed())).len()
    }

    open spec fn byte_estimate(&self, bytes: nat) -> bool {
        bytes == 16 * inserted(edges_of(self.fed())).len()
    }

    open spec fn label() -> Seq<char> {
        "EdgeBTreeSetCoverageInfo"@
    }

    fn name(&self) -> (r: &'static str) {
        "EdgeBTreeSetCoverageInfo"
    }

    fn record_block(&mut self, block: usize) {
        let last = self.last_block;
        self.last_block = block;
        proof {
            lemma_push_drop_last(self.history@, block);
            lemma_push_drop_last(edges_of(self.history@), (last, block));
        }
        self.edge_set.insert((last, block));
        self.history = Ghost(self.history@.push(block));
    }

    fn report_sizes(&self) -> (r: (usize, usize)) {
        proof {
            lemma_inserted_finite(edges_of(self.history@));
        }
        (self.edge_set.len(), heap_size_btree_pair(&self.edge_set))
    }
}

} // verus!
