//! The range-gated file: every write names a range token, every partial
//! flush a receipt.
use vstd::prelude::*;

use crate::allocator::sequential::Allocator;
use crate::allocator::RangeAllocator;
use crate::error::Error;
use crate::mmap_file_inner::{bytes_at, readable, written, MmapFileInner};
use crate::range::{disjoint, AllocatedRange, WriteReceipt};

verus! {

/// A mapped file that is written only through [`AllocatedRange`] tokens.
///
/// Ranges from one allocator never overlap, so writers that each hold their
/// own ranges never touch the same bytes, and no lock guards the writes.
/// A write takes `&mut self`, so that what it changes is stated exactly; a
/// handle that many threads share hands that access out without a lock and
/// relies on the disjointness of the ranges for soundness.
#[derive(Debug)]
pub struct MmapFile {
    inner: MmapFileInner,
}

impl View for MmapFile {
    type V = Seq<u8>;

    closed spec fn view(&self) -> Seq<u8> {
        self.inner@
    }
}

impl MmapFile {
    /// Pairs a mapped file with a fresh allocator for all of its bytes.
    pub fn with_allocator<A: RangeAllocator>(inner: MmapFileInner) -> (r: (MmapFile, A))
        ensures
            r.0@ == inner@,
            r.1.spec_total_size() == inner@.len(),
    {
        let size = inner.size();
        (MmapFile { inner }, A::new(size))
    }

    /// Pairs a mapped file with a fresh sequential allocator for all of its
    /// bytes: its first range starts at offset zero.
    pub fn with_default_allocator(inner: MmapFileInner) -> (r: (MmapFile, Allocator))
        ensures
            r.0@ == inner@,
            r.1.spec_total_size() == inner@.len(),
            r.1.spec_next_pos() == 0,
    {
        let size = inner.size();
        (MmapFile { inner }, Allocator::new(size))
    }

    /// Size of the file in bytes.
    pub fn size(&self) -> (r: u64)
        ensures
            r == self@.len(),
            r > 0,
    {
        self.inner.size()
    }

    /// Writes `data`, which must be exactly as long as `range`, into `range`
    /// and returns the receipt for it.
    ///
    /// Data of another length is refused, and so is a range that does not
    /// lie inside this file; neither changes anything.
    pub fn write_range(&mut self, range: AllocatedRange, data: &[u8]) -> (r: Result<WriteReceipt, Error>)
        ensures
            data@.len() != range.len() ==> r == Err::<WriteReceipt, Error>(
                Error::DataLengthMismatch { data_len: data@.len() as usize, range_len: range.len() },
            ),
            data@.len() == range.len() && range.end() > old(self)@.len() ==> r == Err::<
                WriteReceipt,
                Error,
            >(
                Error::WriteExceedsFileSize {
                    offset: range.start(),
                    len: range.len(),
                    file_size: old(self)@.len() as u64,
                },
            ),
            r is Err ==> final(self)@ == old(self)@,
            data@.len() == range.len() && range.end() <= old(self)@.len() ==> r is Ok
                && r->Ok_0.range() == range && final(self)@ == written(
                old(self)@,
                range.start() as int,
                data@,
            ),
    {
        let range_len = range.len();
        if data.len() as u64 != range_len {
            return Err(Error::DataLengthMismatch { data_len: data.len(), range_len });
        }
        match self.inner.write_at(range.start(), data) {
            Ok(_) => Ok(WriteReceipt::new(range)),
            Err(e) => Err(e),
        }
    }

    /// The same as [`MmapFile::write_range`].
    pub fn write_range_all(&mut self, range: AllocatedRange, data: &[u8]) -> (r: Result<WriteReceipt, Error>)
        ensures
            data@.len() != range.len() ==> r == Err::<WriteReceipt, Error>(
                Error::DataLengthMismatch { data_len: data@.len() as usize, range_len: range.len() },
            ),
            data@.len() == range.len() && range.end() > old(self)@.len() ==> r == Err::<
                WriteReceipt,
                Error,
            >(
                Error::WriteExceedsFileSize {
                    offset: range.start(),
                    len: range.len(),
                    file_size: old(self)@.len() as u64,
                },
            ),
            r is Err ==> final(self)@ == old(self)@,
            data@.len() == range.len() && range.end() <= old(self)@.len() ==> r is Ok
                && r->Ok_0.range() == range && final(self)@ == written(
                old(self)@,
                range.start() as int,
                data@,
            ),
    {
        self.write_range(range, data)
    }

    /// Reads `range` into the front of `buf`, which must be at least as long
    /// as the range, and returns how many bytes it read: the length of the
    /// range, or less where the range runs past the end of the file.
    pub fn read_range(&self, range: AllocatedRange, buf: &mut [u8]) -> (r: Result<usize, Error>)
        ensures
            old(buf)@.len() < range.len() ==> r == Err::<usize, Error>(
                Error::BufferTooSmall { buffer_len: old(buf)@.len() as usize, range_len: range.len() },
            ) && final(buf)@ == old(buf)@,
            old(buf)@.len() >= range.len() ==> r == Ok::<usize, Error>(
                readable(self@.len() as int, range.start() as int, range.len() as int) as usize,
            ) && final(buf)@ == bytes_at(self@, range.start() as int, range.len() as int)
                + old(buf)@.subrange(
                readable(self@.len() as int, range.start() as int, range.len() as int),
                old(buf)@.len() as int,
            ),
    {
        let range_len = range.len();
        if (buf.len() as u64) < range_len {
            return Err(Error::BufferTooSmall { buffer_len: buf.len(), range_len });
        }
        self.inner.read_prefix(range.start(), range_len, buf)
    }

    /// Starts writing the whole file back to storage, without waiting.
    pub fn flush(&self) -> (r: Result<(), Error>)
        ensures
            r is Err ==> r->Err_0 is Io,
    {
        self.inner.flush()
    }

    /// Writes the whole file back to storage and waits until it is durable.
    pub fn sync_all(&self) -> (r: Result<(), Error>)
        ensures
            r is Err ==> r->Err_0 is Io,
    {
        self.inner.sync_all()
    }

    /// Starts writing back exactly the range that `receipt` stands for; a
    /// receipt for bytes beyond this file is refused.
    pub fn flush_range(&self, receipt: WriteReceipt) -> (r: Result<(), Error>)
        ensures
            receipt.range().end() > self@.len() <==> r == Err::<(), Error>(
                Error::FlushRangeExceedsFileSize {
                    offset: receipt.range().start(),
                    len: receipt.range().len(),
                    file_size: self@.len() as u64,
                },
            ),
            receipt.range().end() <= self@.len() ==> r is Ok || r->Err_0 is Io,
    {
        let range = receipt.range();
        let size = self.inner.size();
        if range.end() > size {
            return Err(Error::FlushRangeExceedsFileSize { offset: range.start(), len: range.len(), file_size: size });
        }
        self.inner.flush_range(range.start(), range.len() as usize)
    }
}

/// Writing `data` into a range of the same length and reading that range
/// back into a buffer at least as long gives back `data` in the buffer's
/// first `data.len()` bytes.
pub proof fn lemma_write_read_round_trip(bytes: Seq<u8>, range: AllocatedRange, data: Seq<u8>, buf: Seq<u8>)
    requires
        range.start() <= range.end() <= bytes.len(),
        data.len() == range.len(),
        buf.len() >= data.len(),
    ensures
        readable(bytes.len() as int, range.start() as int, range.len() as int) == data.len(),
        (bytes_at(written(bytes, range.start() as int, data), range.start() as int, range.len() as int)
            + buf.subrange(data.len() as int, buf.len() as int)).subrange(0, data.len() as int) == data,
{
    let after = written(bytes, range.start() as int, data);
    assert(after.subrange(range.start() as int, range.end() as int) =~= data);
    if data.len() == 0 {
        assert(bytes_at(after, range.start() as int, 0) =~= Seq::<u8>::empty());
    }
    assert((bytes_at(after, range.start() as int, range.len() as int) + buf.subrange(
        data.len() as int,
        buf.len() as int,
    )).subrange(0, data.len() as int) =~= data);
}

/// A write into one range leaves every byte of a disjoint range as it was,
/// and two writes into disjoint ranges give the same file in either order.
pub proof fn lemma_disjoint_writes_isolated(
    bytes: Seq<u8>,
    a: AllocatedRange,
    data_a: Seq<u8>,
    b: AllocatedRange,
    data_b: Seq<u8>,
)
    requires
        a.start() <= a.end() <= bytes.len(),
        b.start() <= b.end() <= bytes.len(),
        data_a.len() == a.len(),
        data_b.len() == b.len(),
        disjoint(a, b),
    ensures
        written(bytes, a.start() as int, data_a).subrange(b.start() as int, b.end() as int) == bytes.subrange(
            b.start() as int,
            b.end() as int,
        ),
        written(written(bytes, a.start() as int, data_a), b.start() as int, data_b) == written(
            written(bytes, b.start() as int, data_b),
            a.start() as int,
            data_a,
        ),
{
    assert(written(bytes, a.start() as int, data_a).subrange(b.start() as int, b.end() as int) =~= bytes.subrange(
        b.start() as int,
        b.end() as int,
    ));
    assert(written(written(bytes, a.start() as int, data_a), b.start() as int, data_b) =~= written(
        written(bytes, b.start() as int, data_b),
        a.start() as int,
        data_a,
    ));
}

} // verus!
