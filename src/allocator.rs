//! Block alignment and the allocators that hand out disjoint ranges.
use vstd::prelude::*;

use crate::range::{range_of, AllocatedRange};
use vstd::math::min;

pub mod concurrent;
pub mod sequential;

verus! {

/// Block size in bytes: allocations are rounded up to a multiple of it.
pub const ALIGNMENT: u64 = 4096;

/// Largest multiple of the block size that a `u64` can hold.
pub const MAX_ALIGNED: u64 = 0xFFFF_FFFF_FFFF_F000;

/// The smallest multiple of the block size that is at least `v`.
pub open spec fn aligned_up(v: int) -> int {
    if v % 4096 == 0 {
        v
    } else {
        v + (4096 - v % 4096)
    }
}

/// The largest multiple of the block size that is at most `v`.
pub open spec fn aligned_down(v: int) -> int {
    v - v % 4096
}

/// Rounds `value` up to the next block boundary.
///
/// Values above [`MAX_ALIGNED`] have no boundary above them in `u64`.
pub fn align_up(value: u64) -> (r: u64)
    requires
        value <= MAX_ALIGNED,
    ensures
        r == aligned_up(value as int),
        r % 4096 == 0,
        value <= r < value + 4096,
{
    let rem = value % ALIGNMENT;
    if rem == 0 {
        value
    } else {
        value + (ALIGNMENT - rem)
    }
}

/// Rounds `value` down to the previous block boundary.
pub fn align_down(value: u64) -> (r: u64)
    ensures
        r == aligned_down(value as int),
        r % 4096 == 0,
        r <= value < r + 4096,
{
    value - value % ALIGNMENT
}

/// Rounding up, then down, lands on the rounded-up value; the two roundings
/// of one value are equal or exactly one block apart.
pub proof fn lemma_align_round_trip(v: int)
    requires
        v >= 0,
    ensures
        aligned_down(aligned_up(v)) == aligned_up(v),
        aligned_up(v) - aligned_down(v) == 0 || aligned_up(v) - aligned_down(v) == 4096,
        aligned_up(v) - aligned_down(v) == 0 <==> v % 4096 == 0,
{
}

/// `min(aligned_up(size), limit)`, computed without overflow.
pub(crate) fn clamp_aligned(size: u64, limit: u64) -> (r: u64)
    ensures
        r == min(aligned_up(size as int), limit as int),
{
    if size > MAX_ALIGNED {
        limit
    } else {
        let aligned = align_up(size);
        if aligned < limit {
            aligned
        } else {
            limit
        }
    }
}

/// The range that a bump from cursor position `start` by `size` bytes claims
/// in a file of `total` bytes: none once the cursor has reached the end,
/// else `[start, min(start + size, total))`.
pub open spec fn claim(start: int, size: int, total: int) -> Option<AllocatedRange> {
    if start >= total {
        None
    } else {
        Some(range_of(start as u64, min(start + size, total) as u64))
    }
}

/// The capability that both allocators share: each is made for a file of a
/// given size and hands out ranges of it.
pub trait RangeAllocator: Sized {
    /// The size of the file that the allocator divides.
    spec fn spec_total_size(&self) -> u64;

    /// An allocator for a file of `total_size` bytes that has handed out
    /// nothing yet.
    fn new(total_size: u64) -> (r: Self)
        requires
            total_size > 0,
        ensures
            r.spec_total_size() == total_size,
    ;

    /// The size of the file that the allocator divides.
    fn total_size(&self) -> (r: u64)
        ensures
            r == self.spec_total_size(),
            r > 0,
    ;
}

} // verus!
