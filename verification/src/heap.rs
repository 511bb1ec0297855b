//! The heap file as the disk manager sees it: a growable run of bytes with
//! the part of it that a sync has made durable.

use vstd::prelude::*;
use crate::layout::{range_present, written_at};
use crate::page::DiskError;

verus! {

/// A heap file held in memory.
///
/// `contents` is what reads see: every write shows there at once. `durable`
/// is what survives a crash: it follows `contents` only when `sync` is
/// called.
pub struct HeapFile {
    bytes: Vec<u8>,
    synced: Vec<u8>,
}

/// A fresh vector with the bytes of `src`.
fn copy_bytes(src: &Vec<u8>) -> (dst: Vec<u8>)
    ensures
        dst@ == src@,
{
    let n: usize = src.len();
    let mut dst: Vec<u8> = Vec::with_capacity(n);
    let mut i: usize = 0;
    while i < n
        invariant
            n == src@.len(),
            i <= n,
            dst@ == src@.subrange(0, i as int),
        decreases n - i,
    {
        dst.push(src[i]);
        assert(src@.subrange(0, i as int).push(src@[i as int]) =~= src@.subrange(0, i + 1));
        i += 1;
    }
    assert(src@.subrange(0, n as int) =~= src@);
    dst
}

impl HeapFile {
    /// The bytes of the file as reads see them.
    pub closed spec fn contents(&self) -> Seq<u8> {
        self.bytes@
    }

    /// The bytes of the file that the last sync made durable.
    pub closed spec fn durable(&self) -> Seq<u8> {
        self.synced@
    }

    /// An empty heap file.
    pub fn new() -> (file: Self)
        ensures
            file.contents() == Seq::<u8>::empty(),
            file.durable() == Seq::<u8>::empty(),
    {
        HeapFile { bytes: Vec::new(), synced: Vec::new() }
    }

    /// A heap file that holds `bytes`, all of them durable.
    pub fn from_bytes(bytes: Vec<u8>) -> (file: Self)
        ensures
            file.contents() == bytes@,
            file.durable() == bytes@,
    {
        let synced: Vec<u8> = copy_bytes(&bytes);
        HeapFile { bytes, synced }
    }

    /// The length of the file in bytes.
    pub fn len(&self) -> (n: usize)
        ensures
            n == self.contents().len(),
    {
        self.bytes.len()
    }

    /// A copy of the file's bytes as reads see them.
    pub fn to_bytes(&self) -> (out: Vec<u8>)
        ensures
            out@ == self.contents(),
    {
        copy_bytes(&self.bytes)
    }

    /// A copy of the bytes that the last sync made durable.
    pub fn durable_bytes(&self) -> (out: Vec<u8>)
        ensures
            out@ == self.durable(),
    {
        copy_bytes(&self.synced)
    }

    /// Fills `data` with the bytes that start at `offset`.
    ///
    /// Fails with `UnexpectedEof`, and leaves `data` as it was, when the
    /// file ends before `data` is full.
    pub fn read_exact_at(&self, offset: usize, data: &mut [u8]) -> (r: Result<(), DiskError>)
        ensures
            r == if range_present(self.contents().len(), offset as int, old(data)@.len()) {
                Ok::<(), DiskError>(())
            } else {
                Err::<(), DiskError>(DiskError::UnexpectedEof)
            },
            r is Ok && old(data)@.len() > 0 ==> final(data)@ == self.contents().subrange(
                offset as int,
                offset + old(data)@.len(),
            ),
            r is Err || old(data)@.len() == 0 ==> final(data)@ == old(data)@,
    {
        let n: usize = data.len();
        if n == 0 {
            return Ok(());
        }
        let len: usize = self.bytes.len();
        if len < n || offset > len - n {
            return Err(DiskError::UnexpectedEof);
        }
        let mut i: usize = 0;
        while i < n
            invariant
                i <= n,
                n == data@.len(),
                len == self.bytes@.len(),
                offset + n <= len,
                forall|j: int| 0 <= j < i ==> data@[j] == self.bytes@[offset + j],
            decreases n - i,
        {
            data[i] = self.bytes[offset + i];
            i += 1;
        }
        assert(data@ =~= self.bytes@.subrange(offset as int, offset + n));
        Ok(())
    }

    /// Writes `data` at `offset`, growing the file with zeros where `offset`
    /// lies past its end.
    ///
    /// Fails with `OffsetOutOfRange`, and leaves the file as it was, when
    /// the end of the written range is no offset that the file can address.
    /// What is durable does not change.
    pub fn write_all_at(&mut self, offset: usize, data: &[u8]) -> (r: Result<(), DiskError>)
        ensures
            r == if offset + data@.len() <= usize::MAX {
                Ok::<(), DiskError>(())
            } else {
                Err::<(), DiskError>(DiskError::OffsetOutOfRange)
            },
            r is Ok ==> final(self).contents() == written_at(
                old(self).contents(),
                offset as int,
                data@,
            ),
            r is Err ==> final(self).contents() == old(self).contents(),
            final(self).durable() == old(self).durable(),
    {
        let n: usize = data.len();
        if n > usize::MAX - offset {
            return Err(DiskError::OffsetOutOfRange);
        }
        if n == 0 {
            return Ok(());
        }
        let ghost before = self.bytes@;
        while self.bytes.len() < offset
            invariant
                self.synced@ == old(self).synced@,
                before.len() <= self.bytes@.len(),
                self.bytes@.len() <= offset || self.bytes@.len() == before.len(),
                forall|j: int| 0 <= j < before.len() ==> self.bytes@[j] == before[j],
                forall|j: int| before.len() <= j < self.bytes@.len() ==> self.bytes@[j] == 0u8,
            decreases offset - self.bytes@.len(),
        {
            self.bytes.push(0u8);
        }
        let ghost filled = self.bytes@;
        let mut i: usize = 0;
        while i < n
            invariant
                self.synced@ == old(self).synced@,
                i <= n,
                n == data@.len(),
                offset + n <= usize::MAX,
                offset <= filled.len(),
                filled.len() == if before.len() >= offset { before.len() } else { offset as nat },
                forall|j: int| 0 <= j < before.len() ==> filled[j] == before[j],
                forall|j: int| before.len() <= j < filled.len() ==> filled[j] == 0u8,
                self.bytes@.len() == if filled.len() >= offset + i {
                    filled.len()
                } else {
                    (offset + i) as nat
                },
                forall|k: int| offset <= k < offset + i ==> self.bytes@[k] == data@[k - offset],
                forall|j: int|
                    0 <= j < filled.len() && !(offset <= j < offset + i) ==> self.bytes@[j]
                        == filled[j],
            decreases n - i,
        {
            if offset + i < self.bytes.len() {
                self.bytes[offset + i] = data[i];
            } else {
                self.bytes.push(data[i]);
            }
            i += 1;
        }
        assert forall|k: int| 0 <= k < self.bytes@.len() implies self.bytes@[k] == written_at(
            before,
            offset as int,
            data@,
        )[k] by {
            if !(offset <= k < offset + n) {
                assert(self.bytes@[k] == filled[k]);
            }
        }
        assert(self.bytes@ =~= written_at(before, offset as int, data@));
        Ok(())
    }

    /// Makes every byte written so far durable.
    pub fn sync(&mut self)
        ensures
            final(self).contents() == old(self).contents(),
            final(self).durable() == old(self).contents(),
    {
        self.synced = copy_bytes(&self.bytes);
    }

    /// The file as it is found after a crash: only what was durable is
    /// left.
    pub fn recover(self) -> (file: Self)
        ensures
            file.contents() == self.durable(),
            file.durable() == self.durable(),
    {
        let bytes: Vec<u8> = copy_bytes(&self.synced);
        HeapFile { bytes, synced: self.synced }
    }
}

} // verus!
