//! The memory map itself, from memmap2, and the few operations the engine
//! needs of it.
//!
//! A mapping is a fixed-length run of bytes; `mapped_bytes` names what it
//! holds, and each operation below says what it does to them. Flushes hand
//! the bytes to the operating system and leave them as they are.
use vstd::prelude::*;

use memmap2::MmapMut;

verus! {

#[verifier::external_type_specification]
#[verifier::external_body]
pub struct ExMmapMut(memmap2::MmapMut);

/// The bytes that a mapping holds, as this process sees them.
pub uninterp spec fn mapped_bytes(m: MmapMut) -> Seq<u8>;

/// Relies on `MmapMut`'s `Deref` to `[u8]`: the length of the mapping.
#[verifier::external_body]
pub(crate) fn map_len(m: &MmapMut) -> (r: usize)
    ensures
        r == mapped_bytes(*m).len(),
{
    m.len()
}

/// Relies on `MmapMut`'s `DerefMut` to `[u8]` and `copy_from_slice`: bytes
/// `start..end` become `data`, the others stay.
#[verifier::external_body]
pub(crate) fn map_copy_in(m: &mut MmapMut, start: usize, end: usize, data: &[u8])
    requires
        start <= end <= mapped_bytes(*old(m)).len(),
        end - start == data@.len(),
    ensures
        mapped_bytes(*final(m)) == mapped_bytes(*old(m)).subrange(0, start as int) + data@
            + mapped_bytes(*old(m)).subrange(end as int, mapped_bytes(*old(m)).len() as int),
    no_unwind
{
    m[start..end].copy_from_slice(data);
}

/// Relies on `MmapMut`'s `Deref` to `[u8]` and `copy_from_slice`: the first
/// `n` bytes of `buf` become bytes `start..end` of the mapping.
#[verifier::external_body]
pub(crate) fn map_copy_out(m: &MmapMut, start: usize, end: usize, n: usize, buf: &mut [u8])
    requires
        start <= end <= mapped_bytes(*m).len(),
        n == end - start,
        n <= old(buf)@.len(),
    ensures
        final(buf)@ == mapped_bytes(*m).subrange(start as int, end as int) + old(buf)@.subrange(
            n as int,
            old(buf)@.len() as int,
        ),
{
    buf[..n].copy_from_slice(&m[start..end]);
}

/// Relies on `MmapMut`'s `DerefMut` to `[u8]` and `fill`: every byte
/// becomes `byte`.
#[verifier::external_body]
pub(crate) fn map_fill(m: &mut MmapMut, byte: u8)
    ensures
        mapped_bytes(*final(m)) == Seq::new(mapped_bytes(*old(m)).len(), |i: int| byte),
    no_unwind
{
    m.fill(byte);
}

/// Relies on `MmapMut::flush_async`: starts writing the whole mapping back
/// to its file; the operating system may refuse.
#[verifier::external_body]
pub(crate) fn map_flush_async(m: &MmapMut) -> (r: Result<(), std::io::Error>) {
    m.flush_async()
}

/// Relies on `MmapMut::flush`: writes the whole mapping back to its file
/// and waits until it is durable; the operating system may refuse.
#[verifier::external_body]
pub(crate) fn map_flush(m: &MmapMut) -> (r: Result<(), std::io::Error>) {
    m.flush()
}

/// Relies on `MmapMut::flush_async_range`: starts writing bytes
/// `offset..offset + len` back to the file; the operating system may refuse.
#[verifier::external_body]
pub(crate) fn map_flush_async_range(m: &MmapMut, offset: usize, len: usize) -> (r: Result<(), std::io::Error>) {
    m.flush_async_range(offset, len)
}

} // verus!
