//! Sparse sets of 30-bit edge sets, held in a compressed bitmap.

use roaring::RoaringBitmap;
use vstd::prelude::*;

verus! {

#[verifier::external_type_specification]
#[verifier::external_body]
pub struct ExRoaringBitmap(RoaringBitmap);

/// The values that a bitmap holds.
pub uninterp spec fn bitmap_set(b: RoaringBitmap) -> Set<u32>;

/// Relies on `RoaringBitmap::new`: the new bitmap is empty.
#[verifier::external_body]
pub(crate) fn bitmap_new() -> (r: RoaringBitmap)
    ensures
        bitmap_set(r) == Set::<u32>::empty(),
{
    RoaringBitmap::new()
}

/// Relies on `RoaringBitmap::insert`: adds the value, and reports whether it
/// was absent before.
#[verifier::external_body]
pub(crate) fn bitmap_insert(b: &mut RoaringBitmap, v: u32) -> (r: bool)
    ensures
        bitmap_set(*final(b)) == bitmap_set(*old(b)).insert(v),
        r == !bitmap_set(*old(b)).contains(v),
{
    b.insert(v)
}

/// Relies on `RoaringBitmap::contains`: whether the value is present.
#[verifier::external_body]
pub(crate) fn bitmap_contains(b: &RoaringBitmap, v: u32) -> (r: bool)
    ensures
        r == bitmap_set(*b).contains(v),
{
    b.contains(v)
}

/// Relies on `RoaringBitmap::len`: the number of distinct values held.
#[verifier::external_body]
pub(crate) fn bitmap_len(b: &RoaringBitmap) -> (r: u64)
    ensures
        r as nat == bitmap_set(*b).len(),
{
    b.len()
}

/// Relies on `RoaringBitmap::iter`: each value once, in ascending order.
#[verifier::external_body]
pub(crate) fn bitmap_values(b: &RoaringBitmap) -> (r: Vec<u32>)
    ensures
        r@.to_set() == bitmap_set(*b),
        forall|i: int, j: int| 0 <= i < j < r@.len() ==> r@[i] < r@[j],
{
    b.iter().collect()
}

} // verus!
