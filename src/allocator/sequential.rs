//! A single-owner bump allocator.
use vstd::prelude::*;

use crate::allocator::{aligned_up, clamp_aligned, claim, RangeAllocator};
use crate::range::{lemma_range_of, range_of, AllocatedRange};
use vstd::math::min;

verus! {

broadcast use lemma_range_of;

/// Hands out consecutive ranges of a file, from its start to its end.
///
/// Requests are rounded up to whole blocks; the last range may be cut short
/// at the end of the file. Only one owner calls it, so no atomics are needed.
pub struct Allocator {
    next_pos: u64,
    total_size: u64,
}

impl Allocator {
    #[verifier::type_invariant]
    spec fn in_bounds(self) -> bool {
        0 < self.total_size && self.next_pos <= self.total_size
    }

    /// Where the next range starts.
    pub closed spec fn spec_next_pos(&self) -> u64 {
        self.next_pos
    }

    /// Hands out the next `min(align_up(size), remaining)` bytes, or `None`
    /// when nothing remains or `size` is zero.
    pub fn allocate(&mut self, size: u64) -> (r: Option<AllocatedRange>)
        ensures
            (final(self).spec_next_pos() as int, r) == allocate_step(
                old(self).spec_next_pos() as int,
                old(self).spec_total_size() as int,
                size as int,
            ),
            final(self).spec_total_size() == old(self).spec_total_size(),
    {
        proof {
            use_type_invariant(&*self);
        }
        let remaining = self.total_size - self.next_pos;
        if size == 0 || remaining == 0 {
            return None;
        }
        let start = self.next_pos;
        let end = start + clamp_aligned(size, remaining);
        self.next_pos = end;
        Some(AllocatedRange::from_range_unchecked(start, end))
    }

    /// An allocator that resumes with its cursor at `next_pos` (a cursor past
    /// the end stands at the end); `None` for a file of zero bytes.
    pub fn from_parts(next_pos: u64, total_size: u64) -> (r: Option<Allocator>)
        ensures
            total_size == 0 <==> r is None,
            r is Some ==> r->0.spec_total_size() == total_size && r->0.spec_next_pos() == min(
                next_pos as int,
                total_size as int,
            ),
    {
        if total_size == 0 {
            return None;
        }
        let next_pos = if next_pos > total_size {
            total_size
        } else {
            next_pos
        };
        Some(Allocator { next_pos, total_size })
    }

    /// Bytes not handed out yet.
    pub fn remaining(&self) -> (r: u64)
        ensures
            r == self.spec_total_size() - self.spec_next_pos(),
    {
        proof {
            use_type_invariant(self);
        }
        self.total_size - self.next_pos
    }

    /// Where the next range starts.
    pub fn next_pos(&self) -> (r: u64)
        ensures
            r == self.spec_next_pos(),
            r <= self.spec_total_size(),
    {
        proof {
            use_type_invariant(self);
        }
        self.next_pos
    }
}

/// One call `allocate(size)` with the cursor at `next`, in a file of
/// `total` bytes: the cursor after it, and the range it returns. A request
/// of zero bytes gets nothing and moves nothing.
pub open spec fn allocate_step(next: int, total: int, size: int) -> (int, Option<AllocatedRange>) {
    if size <= 0 {
        (next, None)
    } else {
        let r = claim(next, aligned_up(size), total);
        (
            match r {
                Some(range) => range.end() as int,
                None => next,
            },
            r,
        )
    }
}

/// The ranges that successive calls `allocate(sizes[0])`, `allocate(sizes[1])`,
/// ... return from cursor `next` in a file of `total` bytes, each call being
/// one `allocate_step`, and the cursor after the last of them.
pub open spec fn allocations(next: int, total: int, sizes: Seq<u64>) -> (int, Seq<Option<AllocatedRange>>)
    decreases sizes.len(),
{
    if sizes.len() == 0 {
        (next, Seq::empty())
    } else {
        let before = allocations(next, total, sizes.drop_last());
        let step = allocate_step(before.0, total, sizes.last() as int);
        (step.0, before.1.push(step.1))
    }
}

/// Total length of the ranges in `out`.
pub open spec fn issued(out: Seq<Option<AllocatedRange>>) -> int
    decreases out.len(),
{
    if out.len() == 0 {
        0
    } else {
        issued(out.drop_last()) + match out.last() {
            Some(range) => range.len() as int,
            None => 0,
        }
    }
}

/// Any sequence of allocations from one allocator hands out non-empty
/// ranges inside the file, in increasing order; each starts exactly where
/// the ranges handed out before it end (no overlap, no gap) and its end is
/// where the next one will start. A call fails exactly when it asks for
/// nothing or the lengths handed out before it have reached the rest of the
/// file; as those lengths only grow, after that every call fails.
pub proof fn lemma_allocations_no_overlap(next: u64, total: u64, sizes: Seq<u64>)
    requires
        next <= total,
    ensures
        ({
            let cursor = allocations(next as int, total as int, sizes).0;
            let out = allocations(next as int, total as int, sizes).1;
            &&& out.len() == sizes.len()
            &&& cursor == next + issued(out)
            &&& next <= cursor <= total
            &&& forall|i: int|
                0 <= i < out.len() && #[trigger] out[i] is Some ==> {
                    &&& out[i]->0.start() == next + issued(out.take(i))
                    &&& out[i]->0.end() == next + issued(out.take(i + 1))
                    &&& out[i]->0.start() < out[i]->0.end() <= cursor
                }
            &&& forall|i: int, j: int|
                0 <= i < j < out.len() && #[trigger] out[i] is Some && #[trigger] out[j] is Some
                    ==> out[i]->0.end() <= out[j]->0.start()
            &&& forall|i: int|
                0 <= i < out.len() ==> (#[trigger] out[i] is None <==> (sizes[i] == 0 || next + issued(
                    out.take(i),
                ) >= total))
            &&& forall|i: int, j: int|
                0 <= i <= j <= out.len() ==> #[trigger] issued(out.take(i)) <= #[trigger] issued(out.take(j))
        }),
    decreases sizes.len(),
{
    if sizes.len() > 0 {
        let prefix = sizes.drop_last();
        lemma_allocations_no_overlap(next, total, prefix);
        let before = allocations(next as int, total as int, prefix);
        let out = allocations(next as int, total as int, sizes).1;
        let n = out.len() as int;
        assert(out.drop_last() == before.1);
        assert(out.take(n - 1) =~= before.1);
        assert(out.take(n) =~= out);
        assert(before.1.take(n - 1) =~= before.1);
        assert forall|i: int| 0 <= i < n ==> #[trigger] out.take(i) == before.1.take(i) by {
            if 0 <= i < n {
                assert(out.take(i) =~= before.1.take(i));
            }
        }
        assert forall|i: int| 0 <= i < n - 1 ==> #[trigger] out.take(i + 1) == before.1.take(i + 1) by {
            if 0 <= i < n - 1 {
                assert(out.take(i + 1) =~= before.1.take(i + 1));
            }
        }
        assert forall|i: int, j: int|
            0 <= i <= j <= n implies #[trigger] issued(out.take(i)) <= #[trigger] issued(out.take(j)) by {
            if j == n {
                assert(issued(out) >= issued(before.1));
                if i < n {
                    assert(out.take(i) == before.1.take(i));
                    assert(issued(before.1.take(i)) <= issued(before.1.take(n - 1)));
                }
            }
        }
    }
}

impl RangeAllocator for Allocator {
    closed spec fn spec_total_size(&self) -> u64 {
        self.total_size
    }

    fn new(total_size: u64) -> (r: Self)
        ensures
            r.spec_next_pos() == 0,
    {
        Allocator { next_pos: 0, total_size }
    }

    fn total_size(&self) -> (r: u64) {
        proof {
            use_type_invariant(self);
        }
        self.total_size
    }
}

} // verus!
