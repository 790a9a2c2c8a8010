use vstd::prelude::*;

use super::CoverageTracker;
use crate::sizes::heap_size_vec_usize;
use crate::stream::{prev_block, lemma_push_drop_last, trivial_dedup};

verus! {

/// Keeps each block that differs from the block just before it, as a full
/// 64-bit address.
pub struct TrivialDedupFullTrace64Bit {
    hive_slide: usize,
    last_block: Option<usize>,
    bbs: Vec<usize>,
    history: Ghost<Seq<usize>>,
}

impl TrivialDedupFullTrace64Bit {
    pub fn new(hive_slide: usize) -> (r: Self)
        ensures
            r.wf(),
            r.fed() == Seq::<usize>::empty(),
            r.slide() == hive_slide,
    {
        TrivialDedupFullTrace64Bit {
            hive_slide,
            last_block: None,
            bbs: Vec::with_capacity(1000),
            history: Ghost(Seq::empty()),
        }
    }

    /// The stored trace: the blocks kept, in order.
    pub fn trace(&self) -> (r: &Vec<usize>)
        requires
            self.wf(),
        ensures
            r@ == trivial_dedup(self.fed()),
    {
        &self.bbs
    }
}

impl CoverageTracker for TrivialDedupFullTrace64Bit {
    closed spec fn fed(&self) -> Seq<usize> {
        self.history@
    }

    closed spec fn slide(&self) -> usize {
        self.hive_slide
    }

    closed spec fn wf(&self) -> bool {
        &&& self.bbs@ == trivial_dedup(self.history@)
        &&& self.last_block == prev_block(self.history@)
    }

    open spec fn value_count(&self) -> nat {
        trivial_dedup(self.fed()).len()
    }

    open spec fn byte_estimate(&self, bytes: nat) -> bool {
        bytes >= 8 * trivial_dedup(self.fed()).len()
    }

    open spec fn label() -> Seq<char> {
        "TrivialDedupFullTrace64Bit"@
    }

    fn name(&self) -> (r: &'static str) {
        "TrivialDedupFullTrace64Bit"
    }

    fn record_block(&mut self, block: usize) {
        let last = self.last_block;
        self.last_block = Some(block);
        proof {
            lemma_push_drop_last(self.history@, block);
        }
        self.history = Ghost(self.history@.push(block));
        if let Some(l) = last {
            if l == block {
                return;
            }
        }
        self.bbs.push(block);
    }

    fn report_sizes(&self) -> (r: (usize, usize)) {
        (self.bbs.len(), heap_size_vec_usize(&self.bbs))
    }
}

} // verus!
