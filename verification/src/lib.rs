//! A page-granular disk manager over a heap file.
//!
//! The heap file is a flat run of fixed-size pages: page `i` occupies the
//! bytes `[i * PAGE_SIZE, (i + 1) * PAGE_SIZE)`. There is no header and no
//! checksum. The manager hands out page identifiers in increasing order and
//! reads and writes whole pages.

pub mod page;
pub mod layout;
pub mod heap;
pub mod manager;

pub use crate::heap::HeapFile;
pub use crate::manager::{DiskManager, DiskState};
pub use crate::page::{DiskError, PageId, PAGE_SIZE};
