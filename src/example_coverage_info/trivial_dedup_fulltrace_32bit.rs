use vstd::prelude::*;

use super::CoverageTracker;
use crate::sizes::heap_size_vec_u32;
use crate::stream::{
    prev_block, lemma_map_values_push, lemma_push_drop_last, offset32, slid32, slid32_all,
    trivial_dedup,
};

verus! {

/// Keeps each block that differs from the block just before it, as a 32-bit
/// offset from the slide.
pub struct TrivialDedupFullTrace32Bit {
    hive_slide: usize,
    last_block: Option<usize>,
    bbs: Vec<u32>,
    history: Ghost<Seq<usize>>,
}

impl TrivialDedupFullTrace32Bit {
    pub fn new(hive_slide: usize) -> (r: Self)
        ensures
            r.wf(),
            r.fed() == Seq::<usize>::empty(),
            r.slide() == hive_slide,
    {
        let r = TrivialDedupFullTrace32Bit {
            hive_slide,
            last_block: None,
            bbs: Vec::with_capacity(1000),
            history: Ghost(Seq::empty()),
        };
        assert(slid32_all(trivial_dedup(r.history@), hive_slide) =~= Seq::empty());
        r
    }

    /// The stored trace: the blocks kept, in order, less the slide.
    pub fn trace(&self) -> (r: &Vec<u32>)
        requires
            self.wf(),
        ensures
            r@ == slid32_all(trivial_dedup(self.fed()), self.slide()),
    {
        &self.bbs
    }
}

impl CoverageTracker for TrivialDedupFullTrace32Bit {
    closed spec fn fed(&self) -> Seq<usize> {
        self.history@
    }

    closed spec fn slide(&self) -> usize {
        self.hive_slide
    }

    closed spec fn wf(&self) -> bool {
        &&& self.bbs@ == slid32_all(trivial_dedup(self.history@), self.hive_slide)
        &&& self.last_block == prev_block(self.history@)
    }

    open spec fn value_count(&self) -> nat {
        trivial_dedup(self.fed()).len()
    }

    open spec fn byte_estimate(&self, bytes: nat) -> bool {
        bytes >= 4 * trivial_dedup(self.fed()).len()
    }

    open spec fn label() -> Seq<char> {
        "TrivialDedupFullTrace32Bit"@
    }

    fn name(&self) -> (r: &'static str) {
        "TrivialDedupFullTrace32Bit"
    }

    fn record_block(&mut self, block: usize) {
        let last = self.last_block;
        self.last_block = Some(block);
        proof {
            lemma_push_drop_last(self.history@, block);
            lemma_map_values_push(
                trivial_dedup(self.history@),
                block,
                |b: usize| slid32(b, self.hive_slide),
            );
        }
        self.history = Ghost(self.history@.push(block));
        if let Some(l) = last {
            if l == block {
                return;
            }
        }
        self.bbs.push(offset32(block, self.hive_slide));
    }

    fn report_sizes(&self) -> (r: (usize, usize)) {
        (self.bbs.len(), heap_size_vec_u32(&self.bbs))
    }
}

} // verus!
