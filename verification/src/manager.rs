//! The disk manager: page allocation, whole-page reads and writes, and
//! sync, over one heap file that it owns.

use vstd::prelude::*;
use crate::heap::HeapFile;
use crate::layout::{
    page_at,
    page_count,
    page_offset,
    page_present,
    with_page,
    write_then_read,
    write_zero_fills_gap,
    zero_page,
};
use crate::page::{DiskError, PageId, PAGE_SIZE};

verus! {

/// Owns one heap file and the counter from which page identifiers are
/// handed out. Each manager has a counter of its own.
pub struct DiskManager {
    heap_file: HeapFile,
    next_page_id: u64,
}

/// What a disk manager holds, as plain values.
pub struct DiskState {
    /// The bytes of the heap file as reads see them.
    pub contents: Seq<u8>,
    /// The bytes of the heap file that the last sync made durable.
    pub durable: Seq<u8>,
    /// The identifier that the next allocation returns.
    pub next_page_id: u64,
}

impl View for DiskManager {
    type V = DiskState;

    closed spec fn view(&self) -> DiskState {
        DiskState {
            contents: self.heap_file.contents(),
            durable: self.heap_file.durable(),
            next_page_id: self.next_page_id,
        }
    }
}

/// The outcome that a page read owes: a buffer of the wrong length is
/// refused first, then a page that the file does not hold in full.
pub open spec fn read_outcome(contents: Seq<u8>, page_id: PageId, buffer_len: nat) -> Result<
    (),
    DiskError,
> {
    if buffer_len != PAGE_SIZE {
        Err(DiskError::InvalidBufferLength)
    } else if !page_present(contents, page_id) {
        Err(DiskError::UnexpectedEof)
    } else {
        Ok(())
    }
}

/// The outcome that a page write owes: a buffer of the wrong length is
/// refused first, then a page whose end lies past the largest offset that
/// the file can address.
pub open spec fn write_outcome(page_id: PageId, buffer_len: nat) -> Result<(), DiskError> {
    if buffer_len != PAGE_SIZE {
        Err(DiskError::InvalidBufferLength)
    } else if page_offset(page_id) + PAGE_SIZE > usize::MAX {
        Err(DiskError::OffsetOutOfRange)
    } else {
        Ok(())
    }
}

/// One allocation: the identifier handed out, and the state it leaves.
pub open spec fn allocation(s: DiskState) -> (PageId, DiskState) {
    (PageId(s.next_page_id), DiskState { next_page_id: (s.next_page_id + 1) as u64, ..s })
}

/// The state after `k` allocations in a row.
pub open spec fn after_allocations(s: DiskState, k: nat) -> DiskState
    decreases k,
{
    if k == 0 {
        s
    } else {
        allocation(after_allocations(s, (k - 1) as nat)).1
    }
}

impl DiskManager {
    /// A manager over `heap_file`. Allocation resumes after the last
    /// complete page of the file; a trailing partial page does not count.
    pub fn new(heap_file: HeapFile) -> (r: Result<Self, DiskError>)
        ensures
            r matches Ok(m) && m@ == (DiskState {
                contents: heap_file.contents(),
                durable: heap_file.durable(),
                next_page_id: page_count(heap_file.contents().len()) as u64,
            }),
            page_count(heap_file.contents().len()) <= u64::MAX,
    {
        let heap_file_size: usize = heap_file.len();
        let next_page_id: u64 = (heap_file_size / PAGE_SIZE) as u64;
        Ok(DiskManager { heap_file, next_page_id })
    }

    /// The identifier that the next allocation returns.
    pub fn next_page_id(&self) -> (n: u64)
        ensures
            n == self@.next_page_id,
    {
        self.next_page_id
    }

    /// The heap file that the manager owns.
    pub fn heap_file(&self) -> (heap_file: &HeapFile)
        ensures
            heap_file.contents() == self@.contents,
            heap_file.durable() == self@.durable,
    {
        &self.heap_file
    }

    /// Gives up the manager and hands back its heap file.
    pub fn into_heap_file(self) -> (heap_file: HeapFile)
        ensures
            heap_file.contents() == self@.contents,
            heap_file.durable() == self@.durable,
    {
        self.heap_file
    }

    /// Hands out the next page identifier and moves the counter on by one.
    /// The heap file is not touched.
    pub fn allocate_page(&mut self) -> (page_id: PageId)
        requires
            old(self)@.next_page_id < u64::MAX,
        ensures
            (page_id, final(self)@) == allocation(old(self)@),
    {
        let page_id = PageId(self.next_page_id);
        self.next_page_id = self.next_page_id + 1;
        page_id
    }

    /// The byte offset at which page `page_id` starts, where 64 bits can
    /// hold it.
    pub fn calc_offset(page_id: PageId) -> (offset: Option<u64>)
        ensures
            page_offset(page_id) <= u64::MAX ==> offset == Some(page_offset(page_id) as u64),
            page_offset(page_id) > u64::MAX ==> offset is None,
    {
        if page_id.0 <= u64::MAX / 4096 {
            Some(page_id.0 * 4096)
        } else {
            None
        }
    }

    /// Reads page `page_id` into `data`.
    ///
    /// `data` must hold exactly `PAGE_SIZE` bytes, and the file must hold
    /// the whole page: a page past the end of the file is an error, not a
    /// page of zeros. On an error `data` is left as it was. The manager
    /// does not change.
    pub fn read_page_data(&mut self, page_id: PageId, data: &mut [u8]) -> (r: Result<
        (),
        DiskError,
    >)
        ensures
            r == read_outcome(old(self)@.contents, page_id, old(data)@.len()),
            r is Ok ==> final(data)@ == page_at(old(self)@.contents, page_id),
            r is Err ==> final(data)@ == old(data)@,
            final(self)@ == old(self)@,
    {
        if data.len() != PAGE_SIZE {
            return Err(DiskError::InvalidBufferLength);
        }
        // No page can start past the file's own length.
        let file_len: usize = self.heap_file.len();
        match Self::calc_offset(page_id) {
            None => Err(DiskError::UnexpectedEof),
            Some(offset) => {
                if offset > file_len as u64 {
                    Err(DiskError::UnexpectedEof)
                } else {
                    self.heap_file.read_exact_at(offset as usize, data)
                }
            },
        }
    }

    /// Writes `data` as page `page_id`.
    ///
    /// `data` must hold exactly `PAGE_SIZE` bytes; nothing is written
    /// otherwise. A page past the end of the file grows the file, and the
    /// gap is filled with zeros. The write is not durable before `sync`.
    pub fn write_page_data(&mut self, page_id: PageId, data: &[u8]) -> (r: Result<(), DiskError>)
        ensures
            r == write_outcome(page_id, data@.len()),
            r is Ok ==> final(self)@ == (DiskState {
                contents: with_page(old(self)@.contents, page_id, data@),
                ..old(self)@
            }),
            r is Err ==> final(self)@ == old(self)@,
    {
        if data.len() != PAGE_SIZE {
            return Err(DiskError::InvalidBufferLength);
        }
        match Self::calc_offset(page_id) {
            None => Err(DiskError::OffsetOutOfRange),
            Some(offset) => {
                if offset > usize::MAX as u64 {
                    Err(DiskError::OffsetOutOfRange)
                } else {
                    self.heap_file.write_all_at(offset as usize, data)
                }
            },
        }
    }

    /// Makes every write so far durable. The contents and the counter stay
    /// as they are.
    pub fn sync(&mut self) -> (r: Result<(), DiskError>)
        ensures
            r == Ok::<(), DiskError>(()),
            final(self)@ == (DiskState { durable: old(self)@.contents, ..old(self)@ }),
    {
        self.heap_file.sync();
        Ok(())
    }
}

/// However many allocations came before, the next one hands out the
/// starting identifier plus their number: identifiers go up by one from
/// call to call, and no two calls return the same one. The heap file is
/// as it was.
pub proof fn allocations_count_up(s: DiskState, k: nat)
    requires
        s.next_page_id + k <= u64::MAX,
    ensures
        allocation(after_allocations(s, k)).0 == PageId((s.next_page_id + k) as u64),
        after_allocations(s, k) == (DiskState { next_page_id: (s.next_page_id + k) as u64, ..s }),
    decreases k,
{
    if k > 0 {
        allocations_count_up(s, (k - 1) as nat);
    }
}

/// A manager opened on a file without bytes hands out page 0 first, then
/// 1, 2 and so on: allocation number `k`, counted from 0, returns page `k`.
pub proof fn empty_file_allocates_from_zero(s: DiskState, k: nat)
    requires
        s.contents.len() == 0,
        s.next_page_id == page_count(s.contents.len()),
        k <= u64::MAX,
    ensures
        allocation(after_allocations(s, k)).0 == PageId(k as u64),
{
    allocations_count_up(s, k);
}

/// A page that a write accepted is read back as it was written.
pub proof fn written_page_reads_back(contents: Seq<u8>, page_id: PageId, data: Seq<u8>)
    requires
        write_outcome(page_id, data.len()) is Ok,
    ensures
        read_outcome(with_page(contents, page_id, data), page_id, PAGE_SIZE as nat) == Ok::<
            (),
            DiskError,
        >(()),
        page_at(with_page(contents, page_id, data), page_id) == data,
{
    write_then_read(contents, page_id, data);
}

/// A read of a page that starts at or past the end of the file is refused:
/// it does not come back as zeros.
pub proof fn read_past_end_is_refused(contents: Seq<u8>, page_id: PageId)
    requires
        contents.len() <= page_offset(page_id),
    ensures
        read_outcome(contents, page_id, PAGE_SIZE as nat) == Err::<(), DiskError>(
            DiskError::UnexpectedEof,
        ),
{
}

/// After an accepted write of a page past the end of the file, every page
/// between the old end and the written page, unreadable before, reads as
/// zeros.
pub proof fn gap_pages_read_as_zeros(
    contents: Seq<u8>,
    page_id: PageId,
    gap: PageId,
    data: Seq<u8>,
)
    requires
        write_outcome(page_id, data.len()) is Ok,
        contents.len() <= page_offset(gap),
        gap.0 < page_id.0,
    ensures
        read_outcome(contents, gap, PAGE_SIZE as nat) is Err,
        read_outcome(with_page(contents, page_id, data), gap, PAGE_SIZE as nat) == Ok::<
            (),
            DiskError,
        >(()),
        page_at(with_page(contents, page_id, data), gap) == zero_page(),
{
    write_zero_fills_gap(contents, page_id, gap, data);
}

/// A buffer that does not hold exactly one page is refused by reads and
/// writes alike, whatever the page and the file.
pub proof fn wrong_length_is_refused(contents: Seq<u8>, page_id: PageId, buffer_len: nat)
    requires
        buffer_len != PAGE_SIZE,
    ensures
        read_outcome(contents, page_id, buffer_len) == Err::<(), DiskError>(
            DiskError::InvalidBufferLength,
        ),
        write_outcome(page_id, buffer_len) == Err::<(), DiskError>(
            DiskError::InvalidBufferLength,
        ),
{
}

} // verus!
