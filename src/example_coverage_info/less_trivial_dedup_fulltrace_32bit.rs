use vstd::prelude::*;

use super::CoverageTracker;
use crate::sizes::heap_size_vec_u32;
use crate::stream::{
    less_trivial_dedup, lemma_map_values_push, lemma_push_drop_last, lemma_window_push,
    offset32, prev2_block, prev_block, slid32, slid32_all,
};

verus! {

/// Keeps each block unless it equals the block just before it and, where
/// there is one, the block before that too; as a 32-bit offset from the
/// slide.
pub struct LessTrivialDedupFullTrace32Bit {
    hive_slide: usize,
    prevprev: Option<usize>,
    prev: Option<usize>,
    bbs: Vec<u32>,
    history: Ghost<Seq<usize>>,
}

impl LessTrivialDedupFullTrace32Bit {
    pub fn new(hive_slide: usize) -> (r: Self)
        ensures
            r.wf(),
            r.fed() == Seq::<usize>::empty(),
            r.slide() == hive_slide,
    {
        let r = LessTrivialDedupFullTrace32Bit {
            hive_slide,
            prevprev: None,
            prev: None,
            bbs: Vec::with_capacity(1000),
            history: Ghost(Seq::empty()),
        };
        assert(slid32_all(less_trivial_dedup(r.history@), hive_slide) =~= Seq::empty());
        r
    }

    /// The stored trace: the blocks kept, in order, less the slide.
    pub fn trace(&self) -> (r: &Vec<u32>)
        requires
            self.wf(),
        ensures
            r@ == slid32_all(less_trivial_dedup(self.fed()), self.slide()),
    {
        &self.bbs
    }
}

impl CoverageTracker for LessTrivialDedupFullTrace32Bit {
    closed spec fn fed(&self) -> Seq<usize> {
        self.history@
    }

    closed spec fn slide(&self) -> usize {
        self.hive_slide
    }

    closed spec fn wf(&self) -> bool {
        &&& self.bbs@ == slid32_all(less_trivial_dedup(self.history@), self.hive_slide)
        &&& self.prev == prev_block(self.history@)
        &&& self.prevprev == prev2_block(self.history@)
    }

    open spec fn value_count(&self) -> nat {
        less_trivial_dedup(self.fed()).len()
    }

    open spec fn byte_estimate(&self, bytes: nat) -> bool {
        bytes >= 4 * less_trivial_dedup(self.fed()).len()
    }

    open spec fn label() -> Seq<char> {
        "LessTrivialDedupFullTrace32Bit"@
    }

    fn name(&self) -> (r: &'static str) {
        "LessTrivialDedupFullTrace32Bit"
    }

    fn record_block(&mut self, block: usize) {
        let prev = self.prev;
        let prevprev = self.prevprev;
        self.prev = Some(block);
        self.prevprev = prev;
        proof {
            lemma_push_drop_last(self.history@, block);
            lemma_window_push(self.history@, block);
            lemma_map_values_push(
                less_trivial_dedup(self.history@),
                block,
                |b: usize| slid32(b, self.hive_slide),
            );
        }
        self.history = Ghost(self.history@.push(block));
        let skip = match (prev, prevprev) {
            (Some(p), None) => p == block,
            (Some(p), Some(pp)) => p == block && pp == block,
            (None, _) => false,
        };
        if skip {
            return;
        }
        self.bbs.push(offset32(block, self.hive_slide));
    }

    fn report_sizes(&self) -> (r: (usize, usize)) {
        (self.bbs.len(), heap_size_vec_u32(&self.bbs))
    }
}

} // verus!
