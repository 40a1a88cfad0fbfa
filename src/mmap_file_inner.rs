//! The raw engine: offset-addressed reads and writes on a mapped file.
use vstd::prelude::*;

use memmap2::MmapMut;

use crate::error::Error;
use crate::mapping::{
    map_copy_in, map_copy_out, map_fill, map_flush, map_flush_async, map_flush_async_range, map_len,
    mapped_bytes,
};
use vstd::math::min;

verus! {

/// `bytes` after `data` was written at `offset`.
pub open spec fn written(bytes: Seq<u8>, offset: int, data: Seq<u8>) -> Seq<u8> {
    bytes.subrange(0, offset) + data + bytes.subrange(offset + data.len(), bytes.len() as int)
}

/// How many bytes a read of up to `want` bytes at `offset` finds in a file of
/// `size` bytes: none past the end, else as many as fit.
pub open spec fn readable(size: int, offset: int, want: int) -> int {
    if offset >= size {
        0
    } else {
        min(want, size - offset)
    }
}

/// The bytes that a read of up to `want` bytes at `offset` finds in `bytes`.
pub open spec fn bytes_at(bytes: Seq<u8>, offset: int, want: int) -> Seq<u8> {
    let n = readable(bytes.len() as int, offset, want);
    if n <= 0 {
        Seq::empty()
    } else {
        bytes.subrange(offset, offset + n)
    }
}

/// `buf` after a read at `offset` filled it from `bytes` as far as they reach.
pub open spec fn read_into(bytes: Seq<u8>, offset: int, buf: Seq<u8>) -> Seq<u8> {
    bytes_at(bytes, offset, buf.len() as int) + buf.subrange(
        readable(bytes.len() as int, offset, buf.len() as int),
        buf.len() as int,
    )
}

/// A file of fixed, non-zero size, mapped into memory.
///
/// Bytes are copied straight into and out of the mapping: no lock, no
/// system call. Writers that share one mapping must keep to disjoint ranges;
/// the range tokens of an allocator are how `MmapFile` makes sure of that.
#[derive(Debug)]
pub struct MmapFileInner {
    map: MmapMut,
    size: u64,
}

impl View for MmapFileInner {
    type V = Seq<u8>;

    closed spec fn view(&self) -> Seq<u8> {
        mapped_bytes(self.map)
    }
}

impl MmapFileInner {
    #[verifier::type_invariant]
    spec fn sized(self) -> bool {
        &&& 0 < self.size <= usize::MAX
        &&& self.size == mapped_bytes(self.map).len()
    }

    /// Takes over a mapping; an empty one is refused.
    pub fn from_mapping(map: MmapMut) -> (r: Result<MmapFileInner, Error>)
        ensures
            mapped_bytes(map).len() == 0 <==> r is Err,
            r is Err ==> r->Err_0 is EmptyFile,
            r is Ok ==> r->Ok_0@ == mapped_bytes(map),
    {
        let len = map_len(&map);
        if len == 0 {
            return Err(Error::EmptyFile);
        }
        Ok(MmapFileInner { map, size: len as u64 })
    }

    /// Size of the file in bytes.
    pub fn size(&self) -> (r: u64)
        ensures
            r == self@.len(),
            r > 0,
    {
        proof {
            use_type_invariant(self);
        }
        self.size
    }

    /// Copies `data` into the file at `offset` and returns its length.
    ///
    /// Every write is bounds-checked: one that would run past the end of the
    /// file changes nothing and fails.
    pub fn write_at(&mut self, offset: u64, data: &[u8]) -> (r: Result<usize, Error>)
        ensures
            offset + data@.len() <= old(self)@.len() ==> r == Ok::<usize, Error>(data@.len() as usize)
                && final(self)@ == written(old(self)@, offset as int, data@),
            offset + data@.len() > old(self)@.len() ==> r == Err::<usize, Error>(
                Error::WriteExceedsFileSize {
                    offset,
                    len: data@.len() as u64,
                    file_size: old(self)@.len() as u64,
                },
            ) && final(self)@ == old(self)@,
    {
        proof {
            use_type_invariant(&*self);
        }
        let len = data.len();
        if offset > self.size || len as u64 > self.size - offset {
            return Err(Error::WriteExceedsFileSize { offset, len: len as u64, file_size: self.size });
        }
        let start = offset as usize;
        map_copy_in(&mut self.map, start, start + len, data);
        proof {
            assert(self@ =~= written(old(self)@, offset as int, data@));
        }
        Ok(len)
    }

    /// Copies `data` into the file at `offset`, all of it or nothing.
    pub fn write_all_at(&mut self, offset: u64, data: &[u8]) -> (r: Result<(), Error>)
        ensures
            offset + data@.len() <= old(self)@.len() ==> r is Ok && final(self)@ == written(
                old(self)@,
                offset as int,
                data@,
            ),
            offset + data@.len() > old(self)@.len() ==> r == Err::<(), Error>(
                Error::WriteExceedsFileSize {
                    offset,
                    len: data@.len() as u64,
                    file_size: old(self)@.len() as u64,
                },
            ) && final(self)@ == old(self)@,
    {
        match self.write_at(offset, data) {
            Ok(_) => Ok(()),
            Err(e) => Err(e),
        }
    }

    /// Copies the first `n` bytes that the file holds at `offset` into `buf`.
    fn copy_out(&self, offset: u64, n: u64, buf: &mut [u8])
        requires
            0 < n,
            offset + n <= self@.len(),
            n <= old(buf)@.len(),
        ensures
            final(buf)@ == self@.subrange(offset as int, offset + n) + old(buf)@.subrange(
                n as int,
                old(buf)@.len() as int,
            ),
    {
        proof {
            use_type_invariant(self);
        }
        let start = offset as usize;
        let count = n as usize;
        map_copy_out(&self.map, start, start + count, count, buf);
    }

    /// Fills `buf` from the file at `offset`, as far as the file reaches, and
    /// returns how many bytes it read: none at or past the end.
    pub fn read_at(&self, offset: u64, buf: &mut [u8]) -> (r: Result<usize, Error>)
        ensures
            r == Ok::<usize, Error>(readable(self@.len() as int, offset as int, old(buf)@.len() as int) as usize),
            final(buf)@ == read_into(self@, offset as int, old(buf)@),
    {
        let want = buf.len() as u64;
        self.read_prefix(offset, want, buf)
    }

    /// Reads up to `want` bytes at `offset` into the front of `buf`, as far as
    /// the file reaches, and returns how many it read.
    pub(crate) fn read_prefix(&self, offset: u64, want: u64, buf: &mut [u8]) -> (r: Result<usize, Error>)
        requires
            want <= old(buf)@.len(),
        ensures
            r == Ok::<usize, Error>(readable(self@.len() as int, offset as int, want as int) as usize),
            final(buf)@ == bytes_at(self@, offset as int, want as int) + old(buf)@.subrange(
                readable(self@.len() as int, offset as int, want as int),
                old(buf)@.len() as int,
            ),
    {
        proof {
            use_type_invariant(self);
        }
        let n = self.available(offset, want);
        if n > 0 {
            self.copy_out(offset, n, buf);
        }
        proof {
            assert(buf@ =~= bytes_at(self@, offset as int, want as int) + old(buf)@.subrange(
                n as int,
                old(buf)@.len() as int,
            ));
        }
        Ok(n as usize)
    }

    /// How many of `want` bytes at `offset` lie inside the file.
    fn available(&self, offset: u64, want: u64) -> (r: u64)
        ensures
            r == readable(self@.len() as int, offset as int, want as int),
    {
        proof {
            use_type_invariant(self);
        }
        if offset >= self.size {
            0
        } else if want < self.size - offset {
            want
        } else {
            self.size - offset
        }
    }

    /// Reads up to `len` bytes at `offset` into a new vector, as far as the
    /// file reaches.
    pub fn read_slice(&self, offset: u64, len: usize) -> (r: Result<Vec<u8>, Error>)
        ensures
            r is Ok,
            r->Ok_0@ == bytes_at(self@, offset as int, len as int),
    {
        let mut buf: Vec<u8> = vec![0u8; len];
        let n = self.available(offset, len as u64);
        if n > 0 {
            self.copy_out(offset, n, buf.as_mut_slice());
        }
        buf.truncate(n as usize);
        proof {
            if n == 0 {
                assert(buf@ =~= Seq::<u8>::empty());
            } else {
                assert(buf@ =~= self@.subrange(offset as int, offset + n));
            }
        }
        Ok(buf)
    }

    /// Sets every byte of the file to `byte`.
    pub fn fill(&mut self, byte: u8) -> (r: Result<(), Error>)
        ensures
            r is Ok,
            final(self)@ == Seq::new(old(self)@.len(), |i: int| byte),
    {
        proof {
            use_type_invariant(&*self);
        }
        map_fill(&mut self.map, byte);
        Ok(())
    }

    /// Sets every byte of the file to zero.
    pub fn zero(&mut self) -> (r: Result<(), Error>)
        ensures
            r is Ok,
            final(self)@ == Seq::new(old(self)@.len(), |i: int| 0u8),
    {
        self.fill(0)
    }

    /// Starts writing the whole mapping back to the file, without waiting.
    pub fn flush(&self) -> (r: Result<(), Error>)
        ensures
            r is Err ==> r->Err_0 is Io,
    {
        match map_flush_async(&self.map) {
            Ok(()) => Ok(()),
            Err(e) => Err(Error::Io(e)),
        }
    }

    /// Writes the whole mapping back to the file and waits until it is
    /// durable.
    pub fn sync_all(&self) -> (r: Result<(), Error>)
        ensures
            r is Err ==> r->Err_0 is Io,
    {
        match map_flush(&self.map) {
            Ok(()) => Ok(()),
            Err(e) => Err(Error::Io(e)),
        }
    }

    /// Starts writing bytes `offset..offset + len` back to the file, without
    /// waiting; a region that runs past the end of the file is refused.
    pub fn flush_range(&self, offset: u64, len: usize) -> (r: Result<(), Error>)
        ensures
            offset + len > self@.len() <==> r == Err::<(), Error>(
                Error::FlushRangeExceedsFileSize { offset, len: len as u64, file_size: self@.len() as u64 },
            ),
            offset + len <= self@.len() ==> r is Ok || r->Err_0 is Io,
    {
        proof {
            use_type_invariant(self);
        }
        if offset > self.size || len as u64 > self.size - offset {
            return Err(Error::FlushRangeExceedsFileSize { offset, len: len as u64, file_size: self.size });
        }
        match map_flush_async_range(&self.map, offset as usize, len) {
            Ok(()) => Ok(()),
            Err(e) => Err(Error::Io(e)),
        }
    }
}

} // verus!
