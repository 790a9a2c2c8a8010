//! The family of coverage accumulators that consume a stream of executed
//! block addresses, each with its own memory and fidelity trade-off.

use vstd::prelude::*;

mod block_btreeset;
mod block_hashset;
mod edge_btreeset;
mod edge_hashset;
mod fulltrace_32bit;
mod fulltrace_64bit;
mod less_trivial_dedup_fulltrace_32bit;
mod trivial_dedup_fulltrace_32bit;
mod trivial_dedup_fulltrace_64bit;
mod xordiff_compressed_trace_uleb128;

pub use block_btreeset::BlockBTreeSetCoverageInfo;
pub use block_hashset::BlockHashSetCoverageInfo;
pub use edge_btreeset::EdgeBTreeSetCoverageInfo;
pub use edge_hashset::{edge_key, edge_keys, lemma_edge_key_injective, EdgeHashSetCoverageInfo};
pub use fulltrace_32bit::FullTrace32Bit;
pub use fulltrace_64bit::FullTrace64Bit;
pub use less_trivial_dedup_fulltrace_32bit::LessTrivialDedupFullTrace32Bit;
pub use trivial_dedup_fulltrace_32bit::TrivialDedupFullTrace32Bit;
pub use trivial_dedup_fulltrace_64bit::TrivialDedupFullTrace64Bit;
pub use xordiff_compressed_trace_uleb128::XorDiffULeb128CompressedTrace;

verus! {

/// What every coverage accumulator offers. Each accumulator's contents are a
/// function of the stream of blocks it was fed (`fed`) and of the address
/// slide it was made with (`slide`); `wf` ties its fields to that stream.
pub trait CoverageTracker {
    spec fn fed(&self) -> Seq<usize>;

    spec fn slide(&self) -> usize;

    spec fn wf(&self) -> bool;

    /// The value count that `report_sizes` gives.
    spec fn value_count(&self) -> nat;

    /// Whether `bytes` is a byte estimate that `report_sizes` may give.
    spec fn byte_estimate(&self, bytes: nat) -> bool;

    spec fn label() -> Seq<char>;

    fn name(&self) -> (r: &'static str)
        ensures
            r@ == Self::label(),
    ;

    fn record_block(&mut self, block: usize)
        requires
            old(self).wf(),
        ensures
            final(self).wf(),
            final(self).fed() == old(self).fed().push(block),
            final(self).slide() == old(self).slide(),
    ;

    fn report_sizes(&self) -> (r: (usize, usize))
        requires
            self.wf(),
        ensures
            r.0 == self.value_count(),
            self.byte_estimate(r.1 as nat),
    ;
}

} // verus!
