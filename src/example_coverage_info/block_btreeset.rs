use std::collections::BTreeSet;

use vstd::prelude::*;

use super::CoverageTracker;
use crate::sizes::heap_size_btree_usize;
use crate::stream::{inserted, lemma_inserted_finite, lemma_push_drop_last};

verus! {

broadcast use {vstd::laws_cmp::group_laws_cmp, vstd::std_specs::btree::group_btree_axioms};

/// Keeps the set of distinct blocks, in an ordered set.
pub struct BlockBTreeSetCoverageInfo {
    hive_slide: usize,
    block_set: BTreeSet<usize>,
    history: Ghost<Seq<usize>>,
}

impl BlockBTreeSetCoverageInfo {
    pub fn new(hive_slide: usize) -> (r: Self)
        ensures
            r.wf(),
            r.fed() == Seq::<usize>::empty(),
            r.slide() == hive_slide,
    {
        BlockBTreeSetCoverageInfo {
            hive_slide,
            block_set: BTreeSet::new(),
            history: Ghost(Seq::empty()),
        }
    }

    /// Whether `block` was fed.
    pub fn contains_block(&self, block: usize) -> (r: bool)
        requires
            self.wf(),
        ensures
            r == inserted(self.fed()).contains(block),
    {
        self.block_set.contains(&block)
    }
}

impl CoverageTracker for BlockBTreeSetCoverageInfo {
    closed spec fn fed(&self) -> Seq<usize> {
        self.history@
    }

    closed spec fn slide(&self) -> usize {
        self.hive_slide
    }

    closed spec fn wf(&self) -> bool {
        self.block_set@ == inserted(self.history@)
    }

    open spec fn value_count(&self) -> nat {
        inserted(self.fed()).len()
    }

    open spec fn byte_estimate(&self, bytes: nat) -> bool {
        bytes == 8 * inserted(self.fed()).len()
    }

    open spec fn label() -> Seq<char> {
        "BlockBTreeSetCoverageInfo"@
    }

    fn name(&self) -> (r: &'static str) {
        "BlockBTreeSetCoverageInfo"
    }

    fn record_block(&mut self, block: usize) {
        proof {
            lemma_push_drop_last(self.history@, block);
        }
        self.block_set.insert(block);
        self.history = Ghost(self.history@.push(block));
    }

    fn report_sizes(&self) -> (r: (usize, usize)) {
        proof {
            lemma_inserted_finite(self.history@);
        }
        (self.block_set.len(), heap_size_btree_usize(&self.block_set))
    }
}

} // verus!
