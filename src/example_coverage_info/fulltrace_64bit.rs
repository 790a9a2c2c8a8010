use vstd::prelude::*;

use super::CoverageTracker;
use crate::sizes::{distinct_count, heap_size_vec_usize};
use crate::stream::{
    consecutive_pairs, lemma_map_values_push, lemma_push_drop_last, offset64, slid64, slid64_all,
};

verus! {

/// Keeps every block it is fed, as a full-width offset from the slide.
pub struct FullTrace64Bit {
    hive_slide: usize,
    bbs: Vec<usize>,
    history: Ghost<Seq<usize>>,
}

impl FullTrace64Bit {
    pub fn new(hive_slide: usize) -> (r: FullTrace64Bit)
        ensures
            r.wf(),
            r.fed() == Seq::<usize>::empty(),
            r.slide() == hive_slide,
    {
        let r = FullTrace64Bit {
            hive_slide,
            bbs: Vec::with_capacity(1000),
            history: Ghost(Seq::empty()),
        };
        assert(slid64_all(r.history@, hive_slide) =~= Seq::empty());
        r
    }

    /// The stored trace: every block fed, in order, less the slide.
    pub fn trace(&self) -> (r: &Vec<usize>)
        requires
            self.wf(),
        ensures
            r@ == slid64_all(self.fed(), self.slide()),
    {
        &self.bbs
    }
}

impl CoverageTracker for FullTrace64Bit {
    closed spec fn fed(&self) -> Seq<usize> {
        self.history@
    }

    closed spec fn slide(&self) -> usize {
        self.hive_slide
    }

    closed spec fn wf(&self) -> bool {
        self.bbs@ == slid64_all(self.history@, self.hive_slide)
    }

    /// The number of distinct edges between consecutive entries of the
    /// stored trace.
    open spec fn value_count(&self) -> nat {
        consecutive_pairs(slid64_all(self.fed(), self.slide())).to_set().len()
    }

    open spec fn byte_estimate(&self, bytes: nat) -> bool {
        bytes >= 8 * self.fed().len()
    }

    open spec fn label() -> Seq<char> {
        "FullTrace64Bit"@
    }

    fn name(&self) -> (r: &'static str) {
        "FullTrace64Bit"
    }

    fn record_block(&mut self, block: usize) {
        proof {
            lemma_push_drop_last(self.history@, block);
            lemma_map_values_push(
                self.history@,
                block,
                |b: usize| slid64(b, self.hive_slide),
            );
        }
        self.bbs.push(offset64(block, self.hive_slide));
        self.history = Ghost(self.history@.push(block));
    }

    fn report_sizes(&self) -> (r: (usize, usize)) {
        let n = self.bbs.len();
        let mut pairs: Vec<(usize, usize)> = Vec::new();
        if n > 0 {
            let mut i: usize = 0;
            while i + 1 < n
                invariant
                    n == self.bbs@.len(),
                    i < n,
                    pairs@ == consecutive_pairs(self.bbs@).take(i as int),
                decreases n - i,
            {
                pairs.push((self.bbs[i], self.bbs[i + 1]));
                i = i + 1;
                assert(pairs@ =~= consecutive_pairs(self.bbs@).take(i as int));
            }
            assert(pairs@ =~= consecutive_pairs(self.bbs@));
        } else {
            assert(pairs@ =~= consecutive_pairs(self.bbs@));
        }
        (distinct_count(&pairs), heap_size_vec_usize(&self.bbs))
    }
}

} // verus!
