//! Page identifiers, the page size, and the errors of the disk manager.

use vstd::prelude::*;

verus! {

/// The size of one page of the heap file, in bytes.
pub const PAGE_SIZE: usize = 4096;

/// The index of a page within the heap file. A plain value: page `n` starts
/// at byte `n * PAGE_SIZE`.
#[derive(Clone, Copy, Debug, PartialEq, Eq, Structural, Hash)]
pub struct PageId(pub u64);

impl PageId {
    /// The integer index that this identifier carries.
    pub fn value(&self) -> (v: u64)
        ensures
            v == self.0,
    {
        self.0
    }
}

/// Why a page operation was refused.
#[derive(Clone, Copy, Debug, PartialEq, Eq, Structural)]
pub enum DiskError {
    /// The buffer handed in does not hold exactly `PAGE_SIZE` bytes.
    InvalidBufferLength,
    /// The page's byte range does not fit the offsets that the heap file
    /// can address.
    OffsetOutOfRange,
    /// The read ran past the end of the heap file.
    UnexpectedEof,
}

} // verus!
