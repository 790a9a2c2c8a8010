use vstd::prelude::*;

use super::CoverageTracker;
use crate::sizes::heap_size_vec_u32;
use crate::stream::{lemma_map_values_push, lemma_push_drop_last, offset32, slid32, slid32_all};

verus! {

/// Keeps every block it is fed, as a 32-bit offset from the slide.
pub struct FullTrace32Bit {
    hive_slide: usize,
    bbs: Vec<u32>,
    history: Ghost<Seq<usize>>,
}

impl FullTrace32Bit {
    pub fn new(hive_slide: usize) -> (r: Self)
        ensures
            r.wf(),
            r.fed() == Seq::<usize>::empty(),
            r.slide() == hive_slide,
    {
        let r = FullTrace32Bit {
            hive_slide,
            bbs: Vec::with_capacity(1000),
            history: Ghost(Seq::empty()),
        };
        assert(slid32_all(r.history@, hive_slide) =~= Seq::empty());
        r
    }

    /// The stored trace: every block fed, in order, less the slide.
    pub fn trace(&self) -> (r: &Vec<u32>)
        requires
            self.wf(),
        ensures
            r@ == slid32_all(self.fed(), self.slide()),
    {
        &self.bbs
    }
}

impl CoverageTracker for FullTrace32Bit {
    closed spec fn fed(&self) -> Seq<usize> {
        self.history@
    }

    closed spec fn slide(&self) -> usize {
        self.hive_slide
    }

    closed spec fn wf(&self) -> bool {
        self.bbs@ == slid32_all(self.history@, self.hive_slide)
    }

    open spec fn value_count(&self) -> nat {
        self.fed().len()
    }

    open spec fn byte_estimate(&self, bytes: nat) -> bool {
        bytes >= 4 * self.fed().len()
    }

    open spec fn label() -> Seq<char> {
        "FullTrace32Bit"@
    }

    fn name(&self) -> (r: &'static str) {
        "FullTrace32Bit"
    }

    fn record_block(&mut self, block: usize) {
        proof {
            lemma_push_drop_last(self.history@, block);
            lemma_map_values_push(
                self.history@,
                block,
                |b: usize| slid32(b, self.hive_slide),
            );
        }
        self.bbs.push(offset32(block, self.hive_slide));
        self.history = Ghost(self.history@.push(block));
    }

    fn report_sizes(&self) -> (r: (usize, usize)) {
        (self.bbs.len(), heap_size_vec_u32(&self.bbs))
    }
}

} // verus!
