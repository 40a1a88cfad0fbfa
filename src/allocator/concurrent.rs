//! A wait-free bump allocator that many threads share.
use vstd::prelude::*;

use std::sync::atomic::{AtomicU64, Ordering};

use crate::allocator::sequential::{allocate_step, allocations};
use crate::allocator::{aligned_up, clamp_aligned, claim, RangeAllocator};
use vstd::math::min;
use crate::range::{lemma_range_of, AllocatedRange};

verus! {

broadcast use lemma_range_of;

/// Hands out disjoint ranges of a file to any number of threads at once.
///
/// One atomic add on a shared cursor claims `[start, start + size)`; the
/// cursor may run past the end of the file, and a claim that starts there
/// fails. Every call takes a bounded number of steps (wait-free).
pub struct Allocator {
    next_pos: AtomicU64,
    total_size: u64,
}

/// The range claimed by a bump that found the cursor at `start`.
fn claim_range(start: u64, size: u64, total: u64) -> (r: Option<AllocatedRange>)
    ensures
        r == claim(start as int, size as int, total as int),
{
    if start >= total {
        return None;
    }
    let end = if size >= total - start {
        total
    } else {
        start + size
    };
    Some(AllocatedRange::from_range_unchecked(start, end))
}

impl Allocator {
    #[verifier::type_invariant]
    spec fn nonempty(self) -> bool {
        0 < self.total_size
    }

    /// An allocator that resumes with its cursor at `next_pos`; `None` for a
    /// file of zero bytes.
    pub fn from_parts(next_pos: u64, total_size: u64) -> (r: Option<Allocator>)
        ensures
            total_size == 0 <==> r is None,
            r is Some ==> r->0.spec_total_size() == total_size,
    {
        if total_size == 0 {
            return None;
        }
        Some(Allocator { next_pos: AtomicU64::new(next_pos), total_size })
    }

    /// Where the shared cursor stands at the moment of the call; other
    /// threads may move it at any time, past the end of the file too.
    pub fn next_pos(&self) -> u64 {
        self.next_pos.load(Ordering::Relaxed)
    }

    /// Claims `align_up(requested_size)` bytes at the shared cursor.
    ///
    /// A request of zero bytes gets `None` and leaves the cursor alone.
    /// Otherwise, where the cursor stood is up to the other threads, so the
    /// contract says only that the result is the claim from some cursor
    /// position: `None` once the cursor has passed the end, else a non-empty
    /// range that ends at or before the end of the file.
    pub fn allocate(&self, requested_size: u64) -> (r: Option<AllocatedRange>)
        ensures
            requested_size == 0 ==> r is None,
            requested_size > 0 ==> exists|start: u64|
                r == claim(start as int, aligned_up(requested_size as int), self.spec_total_size() as int),
    {
        proof {
            use_type_invariant(self);
        }
        if requested_size == 0 {
            return None;
        }
        let total = self.total_size;
        // Never more than the whole file, which keeps the cursor far from
        // wrapping and claims the same range as the full aligned size would.
        let size = clamp_aligned(requested_size, total);
        let start = self.next_pos.fetch_add(size, Ordering::Relaxed);
        let r = claim_range(start, size, total);
        assert(r == claim(start as int, aligned_up(requested_size as int), self.spec_total_size() as int));
        r
    }
}

/// A model of the shared cursor, not a fact about any one run: the claims of
/// successive calls `allocate(sizes[0])`, `allocate(sizes[1])`, ..., taken
/// in the order in which their atomic adds took effect, when each add finds
/// the cursor where the adds before it left it; and the cursor after them,
/// which may run past the end of the file. A request of zero bytes makes no
/// add and claims nothing.
pub open spec fn cursor_claims(total: int, sizes: Seq<u64>) -> (int, Seq<Option<AllocatedRange>>)
    decreases sizes.len(),
{
    if sizes.len() == 0 {
        (0, Seq::empty())
    } else {
        let before = cursor_claims(total, sizes.drop_last());
        let aligned = aligned_up(sizes.last() as int);
        if sizes.last() == 0 {
            (before.0, before.1.push(None))
        } else {
            (before.0 + min(aligned, total), before.1.push(claim(before.0, aligned, total)))
        }
    }
}

/// In the cursor model above: whatever order the atomic adds of concurrent
/// calls take effect in, the ranges they claim are exactly those that the
/// sequential allocator hands out for the same requests in that order; so
/// they do not overlap, leave no gap, and fail only once the file is used
/// up. The model is not tied to `allocate` by its contract, since the
/// atomic's value is not visible to the proof; it describes the cursor only
/// while it has not wrapped past `u64::MAX`.
pub proof fn lemma_claims_match_sequential(total: u64, sizes: Seq<u64>)
    requires
        total > 0,
    ensures
        cursor_claims(total as int, sizes).1 == allocations(0, total as int, sizes).1,
        allocations(0, total as int, sizes).0 == min(cursor_claims(total as int, sizes).0, total as int),
        cursor_claims(total as int, sizes).0 >= 0,
    decreases sizes.len(),
{
    if sizes.len() > 0 {
        let prefix = sizes.drop_last();
        lemma_claims_match_sequential(total, prefix);
        let cursor = cursor_claims(total as int, prefix).0;
        let size = sizes.last() as int;
        if size > 0 {
            assert(aligned_up(size) >= size);
            let aligned = aligned_up(size);
            assert(allocations(0, total as int, sizes).0 == allocate_step(
                allocations(0, total as int, prefix).0,
                total as int,
                size,
            ).0);
            if cursor < total {
                assert(allocations(0, total as int, prefix).0 == cursor);
                let r = claim(cursor, aligned, total as int);
                assert(r->0.end() == min(cursor + aligned, total as int));
                assert(allocate_step(cursor, total as int, size).0 == min(cursor + aligned, total as int));
            } else {
                assert(allocations(0, total as int, prefix).0 == total);
            }
        }
    }
}

impl RangeAllocator for Allocator {
    closed spec fn spec_total_size(&self) -> u64 {
        self.total_size
    }

    fn new(total_size: u64) -> (r: Self) {
        Allocator { next_pos: AtomicU64::new(0), total_size }
    }

    fn total_size(&self) -> (r: u64) {
        proof {
            use_type_invariant(self);
        }
        self.total_size
    }
}

} // verus!
