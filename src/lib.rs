//! Lock-free concurrent writes to disjoint byte ranges of a memory-mapped file.
//!
//! An allocator hands out [`AllocatedRange`] tokens that never overlap; a
//! [`MmapFile`] writes only through such tokens, and a successful write hands
//! back a [`WriteReceipt`], the only value that a partial flush accepts.
//! [`MmapFileInner`] is the raw engine underneath, addressed by offsets.
pub mod allocator;
pub mod error;
pub mod mapping;
pub mod mmap_file;
pub mod mmap_file_inner;
pub mod range;

pub use allocator::RangeAllocator;
pub use error::Error;
pub use mmap_file::MmapFile;
pub use mmap_file_inner::MmapFileInner;
pub use range::{AllocatedRange, SplitDownResult, SplitUpResult, WriteReceipt};
