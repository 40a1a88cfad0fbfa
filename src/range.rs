//! Range tokens, write receipts and the ways to split a range.
use vstd::prelude::*;

use crate::allocator::{align_down, align_up, aligned_down, aligned_up, MAX_ALIGNED};
use crate::error::Error;

verus! {

/// A half-open byte interval `[start, end)` of a file, with `start <= end`.
///
/// Only an allocator, or a split of a range it issued, makes one: a range
/// is the capability to write those bytes. Ranges are `Copy`, so that a
/// written range can be read back with the same token; handing copies of one
/// range to two writers is the one way left to defeat the allocator.
#[derive(Debug, Clone, Copy, PartialEq, Eq, Structural)]
pub struct AllocatedRange {
    start: u64,
    end: u64,
}

/// What `split_at_align_up` made of a range.
#[derive(Debug, Clone, Copy, PartialEq, Eq, Structural)]
pub enum SplitUpResult {
    /// `[start, split)` and `[split, end)`, both non-empty.
    Split { low: AllocatedRange, high: AllocatedRange },
    /// The aligned split point falls on or outside an end of the range:
    /// nothing is cut off, and the whole range is the low side.
    Low(AllocatedRange),
    /// The position lies beyond the length of the range.
    OutOfBounds(AllocatedRange),
}

/// What `split_at_align_down` made of a range.
#[derive(Debug, Clone, Copy, PartialEq, Eq, Structural)]
pub enum SplitDownResult {
    /// `[start, split)` and `[split, end)`, both non-empty.
    Split { low: AllocatedRange, high: AllocatedRange },
    /// The aligned split point falls on or outside an end of the range:
    /// nothing is cut off, and the whole range is the high side.
    High(AllocatedRange),
    /// The position lies beyond the length of the range.
    OutOfBounds(AllocatedRange),
}

/// Two ranges that share no byte.
pub open spec fn disjoint(a: AllocatedRange, b: AllocatedRange) -> bool {
    a.end() <= b.start() || b.end() <= a.start()
}

/// `low` and `high` meet at one point and together cover exactly `whole`.
pub open spec fn covers(whole: AllocatedRange, low: AllocatedRange, high: AllocatedRange) -> bool {
    &&& low.start() == whole.start()
    &&& low.end() == high.start()
    &&& high.end() == whole.end()
}

impl SplitUpResult {
    /// Whether the range was cut in two.
    pub fn is_split(&self) -> (r: bool)
        ensures
            r == (*self is Split),
    {
        matches!(self, SplitUpResult::Split { .. })
    }

    /// Whether the position lay beyond the range.
    pub fn is_out_of_bounds(&self) -> (r: bool)
        ensures
            r == (*self is OutOfBounds),
    {
        matches!(self, SplitUpResult::OutOfBounds(_))
    }

    /// The low side: there is one unless the position was out of bounds.
    pub fn low(&self) -> (r: Option<AllocatedRange>)
        ensures
            r == match *self {
                SplitUpResult::Split { low, .. } => Some(low),
                SplitUpResult::Low(range) => Some(range),
                SplitUpResult::OutOfBounds(_) => None,
            },
    {
        match self {
            SplitUpResult::Split { low, .. } => Some(*low),
            SplitUpResult::Low(range) => Some(*range),
            SplitUpResult::OutOfBounds(_) => None,
        }
    }

    /// The high side: there is one only after a cut.
    pub fn high(&self) -> (r: Option<AllocatedRange>)
        ensures
            r == match *self {
                SplitUpResult::Split { high, .. } => Some(high),
                _ => None,
            },
    {
        match self {
            SplitUpResult::Split { high, .. } => Some(*high),
            _ => None,
        }
    }
}

impl SplitDownResult {
    /// Whether the range was cut in two.
    pub fn is_split(&self) -> (r: bool)
        ensures
            r == (*self is Split),
    {
        matches!(self, SplitDownResult::Split { .. })
    }

    /// Whether the position lay beyond the range.
    pub fn is_out_of_bounds(&self) -> (r: bool)
        ensures
            r == (*self is OutOfBounds),
    {
        matches!(self, SplitDownResult::OutOfBounds(_))
    }

    /// The low side: there is one only after a cut.
    pub fn low(&self) -> (r: Option<AllocatedRange>)
        ensures
            r == match *self {
                SplitDownResult::Split { low, .. } => Some(low),
                _ => None,
            },
    {
        match self {
            SplitDownResult::Split { low, .. } => Some(*low),
            _ => None,
        }
    }

    /// The high side: there is one unless the position was out of bounds.
    pub fn high(&self) -> (r: Option<AllocatedRange>)
        ensures
            r == match *self {
                SplitDownResult::Split { high, .. } => Some(high),
                SplitDownResult::High(range) => Some(range),
                SplitDownResult::OutOfBounds(_) => None,
            },
    {
        match self {
            SplitDownResult::Split { high, .. } => Some(*high),
            SplitDownResult::High(range) => Some(*range),
            SplitDownResult::OutOfBounds(_) => None,
        }
    }
}

impl AllocatedRange {
    #[verifier::type_invariant]
    spec fn ordered(self) -> bool {
        self.start <= self.end
    }

    pub closed spec fn spec_start(&self) -> u64 {
        self.start
    }

    pub closed spec fn spec_end(&self) -> u64 {
        self.end
    }

    pub open spec fn spec_len(&self) -> u64 {
        (self.spec_end() - self.spec_start()) as u64
    }

    pub open spec fn spec_is_empty(&self) -> bool {
        self.spec_start() == self.spec_end()
    }

    /// The range `[start, end)`; only the library mints ranges.
    pub(crate) fn from_range_unchecked(start: u64, end: u64) -> (r: AllocatedRange)
        requires
            start <= end,
        ensures
            r == range_of(start, end),
    {
        AllocatedRange { start, end }
    }

    /// Start of the range (inclusive).
    #[verifier::when_used_as_spec(spec_start)]
    pub fn start(&self) -> (r: u64)
        ensures
            r == self.start(),
            r <= self.end(),
    {
        proof {
            use_type_invariant(self);
        }
        self.start
    }

    /// End of the range (exclusive).
    #[verifier::when_used_as_spec(spec_end)]
    pub fn end(&self) -> (r: u64)
        ensures
            r == self.end(),
            self.start() <= r,
    {
        proof {
            use_type_invariant(self);
        }
        self.end
    }

    /// Number of bytes in the range.
    #[verifier::when_used_as_spec(spec_len)]
    pub fn len(&self) -> (r: u64)
        ensures
            r == self.end() - self.start(),
    {
        proof {
            use_type_invariant(self);
        }
        self.end - self.start
    }

    /// Whether the range holds no byte.
    #[verifier::when_used_as_spec(spec_is_empty)]
    pub fn is_empty(&self) -> (r: bool)
        ensures
            r == (self.start() == self.end()),
            r == (self.len() == 0),
    {
        proof {
            use_type_invariant(self);
        }
        self.start == self.end
    }

    /// Splits at `pos` bytes from the start: `[start, start + pos)` and
    /// `[start + pos, end)`.
    pub fn split_at(&self, pos: u64) -> (r: Result<(AllocatedRange, AllocatedRange), Error>)
        ensures
            pos <= self.len() ==> r == Ok::<_, Error>(
                (
                    range_of(self.start(), (self.start() + pos) as u64),
                    range_of((self.start() + pos) as u64, self.end()),
                ),
            ),
            pos > self.len() ==> r == Err::<(AllocatedRange, AllocatedRange), _>(
                Error::InvalidRange { start: self.start(), end: self.end(), pos },
            ),
    {
        proof {
            use_type_invariant(self);
        }
        if pos > self.end - self.start {
            return Err(Error::InvalidRange { start: self.start, end: self.end, pos });
        }
        let mid = self.start + pos;
        Ok((AllocatedRange { start: self.start, end: mid }, AllocatedRange { start: mid, end: self.end }))
    }

    /// Splits at the block boundary at or after `start + pos`.
    ///
    /// A cut always leaves both sides non-empty. Where the boundary falls on
    /// or outside an end of the range nothing is cut off and the whole range
    /// comes back as `Low`; a `pos` beyond the length gives `OutOfBounds`.
    pub fn split_at_align_up(&self, pos: u64) -> (r: SplitUpResult)
        ensures
            r == split_up_spec(*self, pos),
    {
        proof {
            use_type_invariant(self);
        }
        let start = self.start;
        let end = self.end;
        if pos > end - start {
            return SplitUpResult::OutOfBounds(*self);
        }
        let target = start + pos;
        if target > MAX_ALIGNED {
            return SplitUpResult::Low(*self);
        }
        let split_point = align_up(target);
        if split_point <= start || split_point >= end {
            SplitUpResult::Low(*self)
        } else {
            SplitUpResult::Split {
                low: AllocatedRange { start, end: split_point },
                high: AllocatedRange { start: split_point, end },
            }
        }
    }

    /// Splits at the block boundary at or before `start + pos`.
    ///
    /// A cut always leaves both sides non-empty. Where the boundary falls on
    /// or outside an end of the range nothing is cut off and the whole range
    /// comes back as `High`; a `pos` beyond the length gives `OutOfBounds`.
    pub fn split_at_align_down(&self, pos: u64) -> (r: SplitDownResult)
        ensures
            r == split_down_spec(*self, pos),
    {
        proof {
            use_type_invariant(self);
        }
        let start = self.start;
        let end = self.end;
        if pos > end - start {
            return SplitDownResult::OutOfBounds(*self);
        }
        let split_point = align_down(start + pos);
        if split_point <= start || split_point >= end {
            SplitDownResult::High(*self)
        } else {
            SplitDownResult::Split {
                low: AllocatedRange { start, end: split_point },
                high: AllocatedRange { start: split_point, end },
            }
        }
    }

    /// The pair `(start, end)`.
    pub fn as_range_tuple(&self) -> (r: (u64, u64))
        ensures
            r == (self.start(), self.end()),
    {
        (self.start, self.end)
    }

    /// The standard range `start..end`.
    pub fn as_range(&self) -> (r: core::ops::Range<u64>)
        ensures
            r.start == self.start(),
            r.end == self.end(),
    {
        core::ops::Range { start: self.start, end: self.end }
    }
}

impl From<AllocatedRange> for core::ops::Range<u64> {
    fn from(range: AllocatedRange) -> (r: core::ops::Range<u64>)
        ensures
            r.start == range.start(),
            r.end == range.end(),
    {
        range.as_range()
    }
}

impl vstd::std_specs::convert::FromSpecImpl<AllocatedRange> for core::ops::Range<u64> {
    open spec fn obeys_from_spec() -> bool {
        true
    }

    open spec fn from_spec(range: AllocatedRange) -> core::ops::Range<u64> {
        core::ops::Range { start: range.start(), end: range.end() }
    }
}

/// Proof that a range was written: only a successful range write makes
/// one, and a partial flush accepts nothing else.
#[derive(Debug, Clone, Copy, PartialEq, Eq, Structural)]
pub struct WriteReceipt {
    range: AllocatedRange,
}

impl WriteReceipt {
    pub closed spec fn spec_range(&self) -> AllocatedRange {
        self.range
    }

    /// The receipt for a write of `range`.
    pub(crate) fn new(range: AllocatedRange) -> (r: WriteReceipt)
        ensures
            r.range() == range,
    {
        WriteReceipt { range }
    }

    /// The range that was written.
    #[verifier::when_used_as_spec(spec_range)]
    pub fn range(&self) -> (r: AllocatedRange)
        ensures
            r == self.range(),
    {
        self.range
    }

    /// Start of the written range.
    pub fn start(&self) -> (r: u64)
        ensures
            r == self.range().start(),
    {
        self.range.start()
    }

    /// End of the written range.
    pub fn end(&self) -> (r: u64)
        ensures
            r == self.range().end(),
    {
        self.range.end()
    }

    /// Length of the written range.
    pub fn len(&self) -> (r: u64)
        ensures
            r == self.range().len(),
    {
        self.range.len()
    }

    /// Whether the written range holds no byte.
    pub fn is_empty(&self) -> (r: bool)
        ensures
            r == self.range().is_empty(),
    {
        self.range.is_empty()
    }
}

/// What `split_at_align_up` returns for `r` and `pos`.
pub open spec fn split_up_spec(r: AllocatedRange, pos: u64) -> SplitUpResult {
    let split = aligned_up(r.start() + pos);
    if pos > r.len() {
        SplitUpResult::OutOfBounds(r)
    } else if split <= r.start() || split >= r.end() {
        SplitUpResult::Low(r)
    } else {
        SplitUpResult::Split {
            low: range_of(r.start(), split as u64),
            high: range_of(split as u64, r.end()),
        }
    }
}

/// What `split_at_align_down` returns for `r` and `pos`.
pub open spec fn split_down_spec(r: AllocatedRange, pos: u64) -> SplitDownResult {
    let split = aligned_down(r.start() + pos);
    if pos > r.len() {
        SplitDownResult::OutOfBounds(r)
    } else if split <= r.start() || split >= r.end() {
        SplitDownResult::High(r)
    } else {
        SplitDownResult::Split {
            low: range_of(r.start(), split as u64),
            high: range_of(split as u64, r.end()),
        }
    }
}

/// A range as a value: the one whose bounds are `start` and `end`.
pub closed spec fn range_of(start: u64, end: u64) -> AllocatedRange {
    AllocatedRange { start, end }
}

/// A cut of a well-ordered range at an in-bounds position, aligned up,
/// aligned down or exact, gives two ranges that meet at the cut and cover
/// the original with no gap and no overlap (the aligned variants cut only
/// where both sides are non-empty); where they do not cut, the one side they
/// return is the original itself.
pub proof fn lemma_split_coverage(r: AllocatedRange, pos: u64)
    requires
        r.start() <= r.end(),
        pos <= r.len(),
    ensures
        match split_up_spec(r, pos) {
            SplitUpResult::Split { low, high } => covers(r, low, high) && low.end() % 4096 == 0
                && !low.is_empty() && !high.is_empty(),
            SplitUpResult::Low(whole) => whole == r,
            SplitUpResult::OutOfBounds(_) => false,
        },
        match split_down_spec(r, pos) {
            SplitDownResult::Split { low, high } => covers(r, low, high) && low.end() % 4096 == 0
                && !low.is_empty() && !high.is_empty(),
            SplitDownResult::High(whole) => whole == r,
            SplitDownResult::OutOfBounds(_) => false,
        },
        covers(r, range_of(r.start(), (r.start() + pos) as u64), range_of((r.start() + pos) as u64, r.end())),
{
}

pub broadcast proof fn lemma_range_of(start: u64, end: u64)
    ensures
        (#[trigger] range_of(start, end)).start() == start,
        range_of(start, end).end() == end,
{
}

} // verus!
