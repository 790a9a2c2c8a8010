use vstd::prelude::*;

use super::CoverageTracker;
use crate::leb::{append_uleb, lemma_uleb_all_len, uleb_all};
use crate::sizes::heap_size_vec_u8;
use crate::stream::{prev_block, lemma_push_drop_last, xor_diffs};

verus! {

/// Keeps, for each block that differs from the block just before it, the XOR
/// of the two, written as unsigned LEB128.
pub struct XorDiffULeb128CompressedTrace {
    hive_slide: usize,
    last_block: Option<usize>,
    num_vals: usize,
    compressed_trace: Vec<u8>,
    history: Ghost<Seq<usize>>,
}

impl XorDiffULeb128CompressedTrace {
    pub fn new(hive_slide: usize) -> (r: XorDiffULeb128CompressedTrace)
        ensures
            r.wf(),
            r.fed() == Seq::<usize>::empty(),
            r.slide() == hive_slide,
    {
        XorDiffULeb128CompressedTrace {
            hive_slide,
            last_block: None,
            num_vals: 0,
            compressed_trace: Vec::with_capacity(1000),
            history: Ghost(Seq::empty()),
        }
    }

    /// The encoded bytes.
    pub fn compressed(&self) -> (r: &Vec<u8>)
        requires
            self.wf(),
        ensures
            r@ == uleb_all(xor_diffs(self.fed())),
    {
        &self.compressed_trace
    }
}

impl CoverageTracker for XorDiffULeb128CompressedTrace {
    closed spec fn fed(&self) -> Seq<usize> {
        self.history@
    }

    closed spec fn slide(&self) -> usize {
        self.hive_slide
    }

    closed spec fn wf(&self) -> bool {
        &&& self.last_block == prev_block(self.history@)
        &&& self.num_vals == xor_diffs(self.history@).len()
        &&& self.compressed_trace@ == uleb_all(xor_diffs(self.history@))
    }

    open spec fn value_count(&self) -> nat {
        xor_diffs(self.fed()).len()
    }

    open spec fn byte_estimate(&self, bytes: nat) -> bool {
        bytes >= uleb_all(xor_diffs(self.fed())).len()
    }

    open spec fn label() -> Seq<char> {
        "CompressedTraceXorDiffULeb128"@
    }

    fn name(&self) -> (r: &'static str) {
        "CompressedTraceXorDiffULeb128"
    }

    fn record_block(&mut self, block: usize) {
        let last = self.last_block;
        self.last_block = Some(block);
        let ghost h = self.history@;
        proof {
            lemma_push_drop_last(h, block);
        }
        self.history = Ghost(h.push(block));
        let prev = match last {
            None => return ,
            Some(l) => l,
        };
        if prev == block {
            return;
        }
        let xordiff = block ^ prev;
        append_uleb(&mut self.compressed_trace, xordiff as u64);
        let written = self.compressed_trace.len();
        proof {
            let d = xor_diffs(h).push(xordiff);
            lemma_push_drop_last(xor_diffs(h), xordiff);
            lemma_uleb_all_len(d);
            assert(self.num_vals < written);
        }
        self.num_vals = self.num_vals + 1;
    }

    fn report_sizes(&self) -> (r: (usize, usize)) {
        (self.num_vals, heap_size_vec_u8(&self.compressed_trace))
    }
}

} // verus!
