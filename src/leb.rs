//! Unsigned LEB128: a value written seven bits at a time, least significant
//! group first, every byte but the last with its high bit set.

use vstd::prelude::*;

verus! {

/// The unsigned LEB128 bytes of `v`.
pub open spec fn uleb(v: nat) -> Seq<u8>
    decreases v,
{
    if v < 128 {
        seq![v as u8]
    } else {
        seq![((v % 128) + 128) as u8] + uleb(v / 128)
    }
}

/// The unsigned LEB128 bytes of each value of `vs`, one after another.
pub open spec fn uleb_all(vs: Seq<usize>) -> Seq<u8>
    decreases vs.len(),
{
    if vs.len() == 0 {
        Seq::empty()
    } else {
        uleb_all(vs.drop_last()) + uleb(vs.last() as nat)
    }
}

pub proof fn lemma_uleb_nonempty(v: nat)
    ensures
        uleb(v).len() >= 1,
    decreases v,
{
    if v >= 128 {
        lemma_uleb_nonempty(v / 128);
    }
}

/// Each value takes at least one byte.
pub proof fn lemma_uleb_all_len(vs: Seq<usize>)
    ensures
        uleb_all(vs).len() >= vs.len(),
    decreases vs.len(),
{
    if vs.len() > 0 {
        lemma_uleb_all_len(vs.drop_last());
        lemma_uleb_nonempty(vs.last() as nat);
    }
}

/// Appends the unsigned LEB128 bytes of `v` to `out`.
pub fn append_uleb(out: &mut Vec<u8>, v: u64)
    ensures
        final(out)@ == old(out)@ + uleb(v as nat),
{
    let ghost start = out@;
    let mut rest: u64 = v;
    while rest >= 128
        invariant
            out@ + uleb(rest as nat) == start + uleb(v as nat),
        decreases rest,
    {
        let b: u8 = (rest % 128 + 128) as u8;
        let ghost before = out@;
        out.push(b);
        assert(uleb(rest as nat) == seq![b] + uleb((rest / 128) as nat));
        assert(out@ + uleb((rest / 128) as nat) =~= before + uleb(rest as nat));
        rest = rest / 128;
    }
    let ghost before = out@;
    out.push(rest as u8);
    assert(out@ =~= before + uleb(rest as nat));
}

} // verus!
