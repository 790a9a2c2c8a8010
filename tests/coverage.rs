use rust_honey_analyzer::example_coverage_info::{
    BlockBTreeSetCoverageInfo, BlockHashSetCoverageInfo, CoverageTracker, EdgeBTreeSetCoverageInfo,
    EdgeHashSetCoverageInfo, FullTrace32Bit, FullTrace64Bit, LessTrivialDedupFullTrace32Bit,
    TrivialDedupFullTrace32Bit, TrivialDedupFullTrace64Bit, XorDiffULeb128CompressedTrace,
};

fn feed<T: CoverageTracker>(t: &mut T, blocks: &[usize]) {
    for b in blocks {
        t.record_block(*b);
    }
}

#[test]
fn full_trace_64bit_keeps_every_block() {
    let mut t = FullTrace64Bit::new(0);
    feed(&mut t, &[0x4000, 0x4010, 0x4020]);
    assert_eq!(t.trace(), &vec![0x4000, 0x4010, 0x4020]);
}

#[test]
fn full_trace_64bit_subtracts_slide_with_wrap() {
    let mut t = FullTrace64Bit::new(0x1000);
    feed(&mut t, &[0x4000, 0x1_0000_1010, 0xfff]);
    assert_eq!(t.trace(), &vec![0x3000, 0x1_0000_0010, usize::MAX]);
}

#[test]
fn full_trace_64bit_counts_distinct_edges() {
    let mut t = FullTrace64Bit::new(0);
    feed(&mut t, &[1, 2, 1, 2, 1]);
    let (n, bytes) = t.report_sizes();
    assert_eq!(n, 2);
    assert!(bytes >= 8 * 5);
}

#[test]
fn full_trace_64bit_empty_reports_zero() {
    let t = FullTrace64Bit::new(0);
    assert_eq!(t.report_sizes().0, 0);
    assert_eq!(t.name(), "FullTrace64Bit");
}

#[test]
fn full_trace_32bit_subtracts_slide() {
    let mut t = FullTrace32Bit::new(0x40_0000);
    feed(&mut t, &[0x40_1000, 0x40_2000]);
    assert_eq!(t.trace(), &vec![0x1000u32, 0x2000u32]);
    let (n, bytes) = t.report_sizes();
    assert_eq!(n, 2);
    assert!(bytes >= 8);
}

#[test]
fn full_trace_32bit_truncates_silently() {
    let mut t = FullTrace32Bit::new(10);
    feed(&mut t, &[5, 0x1_2345_678a]);
    assert_eq!(t.trace(), &vec![4294967291u32, 0x2345_6780u32]);
}

#[test]
fn trivial_dedup_32bit_drops_repeats() {
    let mut t = TrivialDedupFullTrace32Bit::new(0x100);
    feed(&mut t, &[0x500, 0x500, 0x600]);
    assert_eq!(t.trace(), &vec![0x400u32, 0x500u32]);
    assert_eq!(t.report_sizes().0, 2);
}

#[test]
fn trivial_dedup_64bit_drops_repeats() {
    let mut t = TrivialDedupFullTrace64Bit::new(0x100);
    feed(&mut t, &[0x500, 0x500, 0x600]);
    assert_eq!(t.trace(), &vec![0x500, 0x600]);
    assert_eq!(t.report_sizes().0, 2);
}

#[test]
fn trivial_dedup_keeps_first_block_zero() {
    let mut t = TrivialDedupFullTrace64Bit::new(0);
    feed(&mut t, &[0, 0, 1]);
    assert_eq!(t.trace(), &vec![0, 1]);
    let mut u = TrivialDedupFullTrace32Bit::new(0);
    feed(&mut u, &[0, 7, 7, 0]);
    assert_eq!(u.trace(), &vec![0u32, 7, 0]);
}

#[test]
fn less_trivial_dedup_triple_keeps_one() {
    let mut t = LessTrivialDedupFullTrace32Bit::new(0);
    feed(&mut t, &[0x30, 0x30, 0x30]);
    assert_eq!(t.trace(), &vec![0x30u32]);
}

#[test]
fn less_trivial_dedup_zero_run_keeps_one() {
    let mut t = LessTrivialDedupFullTrace32Bit::new(0);
    feed(&mut t, &[0, 0, 0]);
    assert_eq!(t.trace(), &vec![0u32]);
}

#[test]
fn less_trivial_dedup_zero_alternation_keeps_all() {
    let mut t = LessTrivialDedupFullTrace32Bit::new(0);
    feed(&mut t, &[0, 1, 0, 1]);
    assert_eq!(t.trace(), &vec![0u32, 1, 0, 1]);
}

#[test]
fn less_trivial_dedup_alternation_keeps_all() {
    let mut t = LessTrivialDedupFullTrace32Bit::new(0);
    feed(&mut t, &[0x30, 0x40, 0x30, 0x40]);
    assert_eq!(t.trace(), &vec![0x30u32, 0x40, 0x30, 0x40]);
    assert_eq!(t.report_sizes().0, 4);
}

#[test]
fn less_trivial_dedup_pair_is_kept() {
    let mut t = LessTrivialDedupFullTrace32Bit::new(0x10);
    feed(&mut t, &[0x30, 0x30, 0x40, 0x40, 0x40]);
    assert_eq!(t.trace(), &vec![0x20u32, 0x30, 0x30]);
}

#[test]
fn block_sets_ignore_order_and_repeats() {
    let mut a = BlockBTreeSetCoverageInfo::new(0);
    let mut b = BlockBTreeSetCoverageInfo::new(0);
    let mut c = BlockHashSetCoverageInfo::new(0);
    feed(&mut a, &[3, 1, 2]);
    feed(&mut b, &[2, 3, 1, 3, 3]);
    feed(&mut c, &[1, 1, 2, 3]);
    assert_eq!(a.report_sizes(), (3, 24));
    assert_eq!(b.report_sizes(), (3, 24));
    assert_eq!(c.report_sizes().0, 3);
    assert!(c.report_sizes().1 >= 27);
    assert!(a.contains_block(2) && c.contains_block(2));
    assert!(!a.contains_block(4) && !c.contains_block(4));
}

#[test]
fn block_set_reinsert_is_noop() {
    let mut t = BlockHashSetCoverageInfo::new(0);
    feed(&mut t, &[9, 8]);
    let before = t.report_sizes().0;
    t.record_block(9);
    assert_eq!(t.report_sizes().0, before);
}

#[test]
fn edge_sets_start_from_sentinel() {
    let mut a = EdgeBTreeSetCoverageInfo::new(0);
    let mut b = EdgeHashSetCoverageInfo::new(0);
    feed(&mut a, &[5, 6, 5, 6]);
    feed(&mut b, &[5, 6, 5, 6]);
    assert!(a.contains_edge(0, 5) && b.contains_edge(0, 5));
    assert!(a.contains_edge(5, 6) && b.contains_edge(6, 5));
    assert!(!a.contains_edge(0, 6) && !b.contains_edge(6, 6));
    assert_eq!(a.report_sizes(), (3, 48));
    assert_eq!(b.report_sizes().0, 3);
    assert!(b.report_sizes().1 >= 51);
}

#[test]
fn edge_set_count_ignores_edge_order() {
    let mut a = EdgeBTreeSetCoverageInfo::new(0);
    let mut b = EdgeHashSetCoverageInfo::new(0);
    feed(&mut a, &[1, 2, 3, 1, 2]);
    feed(&mut b, &[1, 2, 3, 1, 2, 3, 1]);
    assert_eq!(a.report_sizes().0, 4);
    assert_eq!(b.report_sizes().0, 4);
}

#[test]
fn xordiff_single_change_after_repeat() {
    let mut t = XorDiffULeb128CompressedTrace::new(0);
    feed(&mut t, &[0, 0, 300]);
    assert_eq!(t.compressed(), &vec![0xac, 0x02]);
    assert_eq!(t.report_sizes().0, 1);
    assert_eq!(t.name(), "CompressedTraceXorDiffULeb128");
}

#[test]
fn xordiff_repeat_then_change() {
    let mut t = XorDiffULeb128CompressedTrace::new(0);
    feed(&mut t, &[0x10, 0x10, 0x13]);
    assert_eq!(t.compressed(), &vec![0x03]);
    assert_eq!(t.report_sizes().0, 1);
}

#[test]
fn xordiff_constant_stream_writes_nothing() {
    let mut t = XorDiffULeb128CompressedTrace::new(0);
    feed(&mut t, &[5, 5, 5]);
    assert!(t.compressed().is_empty());
    assert_eq!(t.report_sizes().0, 0);
}

#[test]
fn xordiff_all_zero_stream_writes_nothing() {
    let mut t = XorDiffULeb128CompressedTrace::new(0);
    feed(&mut t, &[0, 0, 0, 0]);
    assert!(t.compressed().is_empty());
    assert_eq!(t.report_sizes().0, 0);
}

#[test]
fn xordiff_large_value_uses_many_bytes() {
    let mut t = XorDiffULeb128CompressedTrace::new(0);
    feed(&mut t, &[0, 0x1_0000_0000]);
    assert_eq!(t.compressed(), &vec![0x80, 0x80, 0x80, 0x80, 0x10]);
    assert!(t.report_sizes().1 >= 5);
}

#[test]
fn tracker_names() {
    assert_eq!(FullTrace32Bit::new(0).name(), "FullTrace32Bit");
    assert_eq!(TrivialDedupFullTrace32Bit::new(0).name(), "TrivialDedupFullTrace32Bit");
    assert_eq!(TrivialDedupFullTrace64Bit::new(0).name(), "TrivialDedupFullTrace64Bit");
    assert_eq!(LessTrivialDedupFullTrace32Bit::new(0).name(), "LessTrivialDedupFullTrace32Bit");
    assert_eq!(BlockBTreeSetCoverageInfo::new(0).name(), "BlockBTreeSetCoverageInfo");
    assert_eq!(BlockHashSetCoverageInfo::new(0).name(), "BlockHashSetCoverageInfo");
    assert_eq!(EdgeBTreeSetCoverageInfo::new(0).name(), "EdgeBTreeSetCoverageInfo");
    assert_eq!(EdgeHashSetCoverageInfo::new(0).name(), "EdgeHashSetCoverageInfo");
}
