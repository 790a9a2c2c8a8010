//! Byte estimates and distinct counts, computed by outside crates.

use std::collections::{BTreeSet, HashSet};

use itertools::Itertools;
use vstd::prelude::*;

verus! {

/// Relies on datasize::data_size for `Vec<u32>`: the capacity times four
/// bytes, and the capacity is at least the length.
#[verifier::external_body]
pub(crate) fn heap_size_vec_u32(v: &Vec<u32>) -> (r: usize)
    ensures
        r >= 4 * v@.len(),
{
    datasize::data_size(v)
}

/// Relies on datasize::data_size for `Vec<usize>`: the capacity times eight
/// bytes, and the capacity is at least the length.
#[verifier::external_body]
pub(crate) fn heap_size_vec_usize(v: &Vec<usize>) -> (r: usize)
    ensures
        r >= 8 * v@.len(),
{
    datasize::data_size(v)
}

/// Relies on datasize::data_size for `Vec<u8>`: the capacity in bytes, and
/// the capacity is at least the length.
#[verifier::external_body]
pub(crate) fn heap_size_vec_u8(v: &Vec<u8>) -> (r: usize)
    ensures
        r >= v@.len(),
{
    datasize::data_size(v)
}

/// Relies on datasize::data_size for `BTreeSet<usize>`: eight bytes per
/// element.
#[verifier::external_body]
pub(crate) fn heap_size_btree_usize(s: &BTreeSet<usize>) -> (r: usize)
    ensures
        r == 8 * s@.len(),
{
    datasize::data_size(s)
}

/// Relies on datasize::data_size for `BTreeSet<(usize, usize)>`: sixteen
/// bytes per element.
#[verifier::external_body]
pub(crate) fn heap_size_btree_pair(s: &BTreeSet<(usize, usize)>) -> (r: usize)
    ensures
        r == 16 * s@.len(),
{
    datasize::data_size(s)
}

/// Relies on datasize::data_size for `HashSet<usize>`: nine bytes for each
/// bucket, and there are at least as many buckets as elements.
#[verifier::external_body]
pub(crate) fn heap_size_hash_usize(s: &HashSet<usize>) -> (r: usize)
    ensures
        r >= 9 * s@.len(),
{
    datasize::data_size(s)
}

/// Relies on datasize::data_size for `HashSet<u128>`: seventeen bytes for
/// each bucket, and there are at least as many buckets as elements.
#[verifier::external_body]
pub(crate) fn heap_size_hash_u128(s: &HashSet<u128>) -> (r: usize)
    ensures
        r >= 17 * s@.len(),
{
    datasize::data_size(s)
}

/// Relies on itertools::Itertools::unique: it yields each distinct item once.
#[verifier::external_body]
pub(crate) fn distinct_count(v: &Vec<(usize, usize)>) -> (r: usize)
    ensures
        r == v@.to_set().len(),
{
    v.iter().unique().count()
}

} // verus!
