//! The byte layout of the heap file, as functions on sequences of bytes.

use vstd::prelude::*;
use crate::page::{PageId, PAGE_SIZE};

verus! {

/// The number of complete pages in a file of `len` bytes. A trailing partial
/// page does not count.
pub open spec fn page_count(len: nat) -> nat {
    len / (PAGE_SIZE as nat)
}

/// The byte offset at which page `p` starts.
pub open spec fn page_offset(p: PageId) -> int {
    p.0 * PAGE_SIZE
}

/// Whether `bytes` holds all of page `p`.
pub open spec fn page_present(bytes: Seq<u8>, p: PageId) -> bool {
    page_offset(p) + PAGE_SIZE <= bytes.len()
}

/// The bytes of page `p` within `bytes`.
pub open spec fn page_at(bytes: Seq<u8>, p: PageId) -> Seq<u8> {
    bytes.subrange(page_offset(p), page_offset(p) + PAGE_SIZE)
}

/// A page of zero bytes.
pub open spec fn zero_page() -> Seq<u8> {
    Seq::new(PAGE_SIZE as nat, |i: int| 0u8)
}

/// Whether the `len` bytes that start at `offset` lie within a file of
/// `file_len` bytes. Nothing is always within reach.
pub open spec fn range_present(file_len: nat, offset: int, len: nat) -> bool {
    len == 0 || offset + len <= file_len
}

/// The file after `data` was written at byte `offset`: the written range
/// holds `data`, a gap between the old end and `offset` holds zeros, and
/// every other byte is as before. Writing nothing changes nothing.
pub open spec fn written_at(bytes: Seq<u8>, offset: int, data: Seq<u8>) -> Seq<u8> {
    if data.len() == 0 {
        bytes
    } else {
        Seq::new(
            if bytes.len() >= offset + data.len() { bytes.len() } else { (offset + data.len()) as nat },
            |i: int|
                if offset <= i < offset + data.len() {
                    data[i - offset]
                } else if i < bytes.len() {
                    bytes[i]
                } else {
                    0u8
                },
        )
    }
}

/// The file after page `p` was written with `data`.
pub open spec fn with_page(bytes: Seq<u8>, p: PageId, data: Seq<u8>) -> Seq<u8> {
    written_at(bytes, page_offset(p), data)
}

/// The file after pages `0, 1, .., pages.len() - 1` were written in turn,
/// page `i` with `pages[i]`.
pub open spec fn with_pages(bytes: Seq<u8>, pages: Seq<Seq<u8>>) -> Seq<u8>
    decreases pages.len(),
{
    if pages.len() == 0 {
        bytes
    } else {
        with_page(
            with_pages(bytes, pages.drop_last()),
            PageId((pages.len() - 1) as u64),
            pages.last(),
        )
    }
}

/// A page that was written is present afterwards and reads back as the
/// bytes that were written.
pub proof fn write_then_read(bytes: Seq<u8>, p: PageId, data: Seq<u8>)
    requires
        data.len() == PAGE_SIZE,
    ensures
        page_present(with_page(bytes, p, data), p),
        page_at(with_page(bytes, p, data), p) == data,
{
    assert(page_at(with_page(bytes, p, data), p) =~= data);
}

/// Writing page `p` leaves every other page that the file held as it was.
pub proof fn write_keeps_other_pages(bytes: Seq<u8>, p: PageId, q: PageId, data: Seq<u8>)
    requires
        data.len() == PAGE_SIZE,
        p != q,
        page_present(bytes, q),
    ensures
        page_present(with_page(bytes, p, data), q),
        page_at(with_page(bytes, p, data), q) == page_at(bytes, q),
{
    assert(page_at(with_page(bytes, p, data), q) =~= page_at(bytes, q));
}

/// Writing page `p` past the end of the file brings into being every page
/// `q` between the old end and `p`, each as a page of zeros.
pub proof fn write_zero_fills_gap(bytes: Seq<u8>, p: PageId, q: PageId, data: Seq<u8>)
    requires
        data.len() == PAGE_SIZE,
        bytes.len() <= page_offset(q),
        q.0 < p.0,
    ensures
        !page_present(bytes, q),
        page_present(with_page(bytes, p, data), q),
        page_at(with_page(bytes, p, data), q) == zero_page(),
{
    assert(page_at(with_page(bytes, p, data), q) =~= zero_page());
}

/// A page write never shortens the file, grows it no further than the end
/// of the written page, and keeps a file of whole pages a file of whole
/// pages.
pub proof fn write_keeps_alignment(bytes: Seq<u8>, p: PageId, data: Seq<u8>)
    requires
        data.len() == PAGE_SIZE,
    ensures
        with_page(bytes, p, data).len() == if bytes.len() >= page_offset(p) + PAGE_SIZE {
            bytes.len()
        } else {
            (page_offset(p) + PAGE_SIZE) as nat
        },
        bytes.len() % (PAGE_SIZE as nat) == 0 ==> with_page(bytes, p, data).len() % (
        PAGE_SIZE as nat) == 0,
        page_count(with_page(bytes, p, data).len()) == if page_count(bytes.len()) > p.0 {
            page_count(bytes.len())
        } else {
            (p.0 + 1) as nat
        },
{
}

/// Writing pages `0` to `pages.len() - 1` in turn to an empty file leaves a
/// file of exactly `pages.len()` pages, each holding what was written to
/// it. A manager opened on that file resumes allocation at `pages.len()`.
pub proof fn sequential_writes_fill_file(pages: Seq<Seq<u8>>)
    requires
        pages.len() <= u64::MAX,
        forall|i: int| 0 <= i < pages.len() ==> (#[trigger] pages[i]).len() == PAGE_SIZE,
    ensures
        with_pages(Seq::<u8>::empty(), pages).len() == pages.len() * PAGE_SIZE,
        page_count(with_pages(Seq::<u8>::empty(), pages).len()) == pages.len(),
        forall|i: int|
            0 <= i < pages.len() ==> page_at(
                with_pages(Seq::<u8>::empty(), pages),
                PageId(i as u64),
            ) == #[trigger] pages[i],
    decreases pages.len(),
{
    if pages.len() > 0 {
        let rest = pages.drop_last();
        let before = with_pages(Seq::<u8>::empty(), rest);
        let p = PageId((pages.len() - 1) as u64);
        sequential_writes_fill_file(rest);
        write_then_read(before, p, pages.last());
        assert forall|i: int| 0 <= i < pages.len() implies page_at(
            with_pages(Seq::<u8>::empty(), pages),
            PageId(i as u64),
        ) == #[trigger] pages[i] by {
            if i < pages.len() - 1 {
                assert(rest[i] == pages[i]);
                write_keeps_other_pages(before, p, PageId(i as u64), pages.last());
            }
        }
    }
}

} // verus!
