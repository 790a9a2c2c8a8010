//! Mathematical models of what each coverage accumulator holds after being fed
//! a stream of block addresses, and the laws that relate them.

use vstd::prelude::*;

verus! {

/// The block seen last in `s`; the edge accumulators start from the
/// sentinel 0.
pub open spec fn last_of(s: Seq<usize>) -> usize {
    if s.len() == 0 {
        0
    } else {
        s.last()
    }
}

/// The block seen last in `s`, if any.
pub open spec fn prev_block(s: Seq<usize>) -> Option<usize> {
    if s.len() == 0 {
        None
    } else {
        Some(s.last())
    }
}

/// The block seen second to last in `s`, if any.
pub open spec fn prev2_block(s: Seq<usize>) -> Option<usize> {
    if s.len() < 2 {
        None
    } else {
        Some(s[s.len() - 2])
    }
}

/// `block - slide`, computed with wrap-around.
pub open spec fn slid64(block: usize, slide: usize) -> usize {
    if block >= slide {
        (block - slide) as usize
    } else {
        (block - slide + usize::MAX + 1) as usize
    }
}

/// Computes `slid64`.
pub fn offset64(block: usize, slide: usize) -> (r: usize)
    ensures
        r == slid64(block, slide),
{
    if block >= slide {
        block - slide
    } else {
        block + (usize::MAX - slide) + 1
    }
}

/// Each block of `s` as a full-width offset from `slide`.
pub open spec fn slid64_all(s: Seq<usize>, slide: usize) -> Seq<usize> {
    s.map_values(|b: usize| slid64(b, slide))
}

/// `block - slide`, cut to its low 32 bits.
pub open spec fn slid32(block: usize, slide: usize) -> u32 {
    ((block - slide) % 0x1_0000_0000) as u32
}

/// Computes `slid32`: the difference taken with wrap-around, then truncated.
pub fn offset32(block: usize, slide: usize) -> (r: u32)
    ensures
        r == slid32(block, slide),
{
    let m: u64 = 0x1_0000_0000;
    let lb: u64 = block as u64 % m;
    let ls: u64 = slide as u64 % m;
    let d: u64 = if lb >= ls {
        lb - ls
    } else {
        lb + m - ls
    };
    proof {
        let mi: int = 0x1_0000_0000;
        vstd::arithmetic::div_mod::lemma_sub_mod_noop(block as int, slide as int, mi);
        if lb >= ls {
            vstd::arithmetic::div_mod::lemma_small_mod(d as nat, mi as nat);
        } else {
            vstd::arithmetic::div_mod::lemma_mod_add_multiples_vanish(lb - ls, mi);
            vstd::arithmetic::div_mod::lemma_small_mod(d as nat, mi as nat);
        }
    }
    d as u32
}

/// The blocks kept by trivial deduplication: a block equal to the block just
/// before it is dropped; the first block is always kept.
pub open spec fn trivial_dedup(s: Seq<usize>) -> Seq<usize>
    decreases s.len(),
{
    if s.len() == 0 {
        Seq::empty()
    } else {
        let p = s.drop_last();
        if prev_block(p) == Some(s.last()) {
            trivial_dedup(p)
        } else {
            trivial_dedup(p).push(s.last())
        }
    }
}

/// Whether less-trivial deduplication drops `b` after the blocks `p`: it
/// equals the block just before it and, where there is one, the block
/// before that too.
pub open spec fn less_trivial_skip(p: Seq<usize>, b: usize) -> bool {
    &&& prev_block(p) == Some(b)
    &&& (prev2_block(p) is None || prev2_block(p) == Some(b))
}

/// The blocks kept by less-trivial deduplication; the first block is
/// always kept.
pub open spec fn less_trivial_dedup(s: Seq<usize>) -> Seq<usize>
    decreases s.len(),
{
    if s.len() == 0 {
        Seq::empty()
    } else {
        let p = s.drop_last();
        if less_trivial_skip(p, s.last()) {
            less_trivial_dedup(p)
        } else {
            less_trivial_dedup(p).push(s.last())
        }
    }
}

/// Each block of `s` as a 32-bit offset from `slide`.
pub open spec fn slid32_all(s: Seq<usize>, slide: usize) -> Seq<u32> {
    s.map_values(|b: usize| slid32(b, slide))
}

/// The set obtained by inserting the items of `s` one after another into an
/// empty set.
pub open spec fn inserted<A>(s: Seq<A>) -> Set<A>
    decreases s.len(),
{
    if s.len() == 0 {
        Set::empty()
    } else {
        inserted(s.drop_last()).insert(s.last())
    }
}

/// The edges of a stream: each block paired with the block before it, the
/// first block with the sentinel 0.
pub open spec fn edges_of(s: Seq<usize>) -> Seq<(usize, usize)>
    decreases s.len(),
{
    if s.len() == 0 {
        Seq::empty()
    } else {
        let p = s.drop_last();
        edges_of(p).push((last_of(p), s.last()))
    }
}

/// The XOR differences written by the XOR-difference accumulator: one for
/// each block that differs from the block just before it. The first block
/// has no block before it and writes nothing.
pub open spec fn xor_diffs(s: Seq<usize>) -> Seq<usize>
    decreases s.len(),
{
    if s.len() == 0 {
        Seq::empty()
    } else {
        let p = s.drop_last();
        if p.len() == 0 || s.last() == p.last() {
            xor_diffs(p)
        } else {
            xor_diffs(p).push(s.last() ^ p.last())
        }
    }
}

/// The consecutive pairs of `s`: each item with the one after it.
pub open spec fn consecutive_pairs(s: Seq<usize>) -> Seq<(usize, usize)> {
    if s.len() == 0 {
        Seq::empty()
    } else {
        Seq::new((s.len() - 1) as nat, |i: int| (s[i], s[i + 1]))
    }
}

pub proof fn lemma_map_values_push<A, B>(s: Seq<A>, x: A, f: spec_fn(A) -> B)
    ensures
        s.push(x).map_values(f) == s.map_values(f).push(f(x)),
{
    assert(s.push(x).map_values(f) =~= s.map_values(f).push(f(x)));
}

pub proof fn lemma_inserted_finite<A>(s: Seq<A>)
    ensures
        inserted(s).finite(),
    decreases s.len(),
{
    if s.len() > 0 {
        lemma_inserted_finite(s.drop_last());
    }
}

/// Inserting the items of `s` one by one gives the set of the items of `s`.
pub proof fn lemma_inserted_is_to_set<A>(s: Seq<A>)
    ensures
        inserted(s) == s.to_set(),
    decreases s.len(),
{
    if s.len() > 0 {
        let p = s.drop_last();
        lemma_inserted_is_to_set(p);
        assert forall|x: A| s.to_set().contains(x) == p.to_set().insert(s.last()).contains(x) by {
            if s.contains(x) {
                let i = choose|i: int| 0 <= i < s.len() && s[i] == x;
                if i < s.len() - 1 {
                    assert(p[i] == x);
                }
            }
            if p.contains(x) {
                let i = choose|i: int| 0 <= i < p.len() && p[i] == x;
                assert(s[i] == x);
            }
        }
        assert(s.to_set() =~= p.to_set().insert(s.last()));
    } else {
        assert(s.to_set() =~= Set::empty());
    }
}

pub proof fn lemma_push_drop_last<A>(s: Seq<A>, x: A)
    ensures
        s.push(x).drop_last() == s,
        s.push(x).last() == x,
        s.push(x).len() == s.len() + 1,
{
    assert(s.push(x).drop_last() =~= s);
}

pub proof fn lemma_window_push(s: Seq<usize>, x: usize)
    ensures
        prev_block(s.push(x)) == Some(x),
        prev2_block(s.push(x)) == prev_block(s),
{
}

} // verus!
