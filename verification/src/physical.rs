use std::collections::VecDeque;
use vstd::prelude::*;

use crate::block::{validate_read_range, BlockReader};
use crate::error::{Error, ErrorCategory, Result};

verus! {

/// The size of the aligned pieces in which a physical disk is read: disks with
/// 4 KiB physical sectors still take 512-byte logical reads, but one request per
/// piece is far cheaper than one per sector.
pub const PHYSICAL_READ_CHUNK_SIZE: u64 = 65536;

/// How many pieces of a disk are kept in memory.
pub const PHYSICAL_READ_CACHE_CHUNKS: usize = 64;

/// The end of the piece that starts at `offset` on a disk of `disk_len` bytes.
pub open spec fn chunk_end(offset: int, disk_len: int) -> int {
    if offset + PHYSICAL_READ_CHUNK_SIZE < disk_len {
        offset + PHYSICAL_READ_CHUNK_SIZE
    } else {
        disk_len
    }
}

/// Whether a kept piece is an aligned piece of `disk` holding what the disk holds.
pub open spec fn chunk_agrees(chunk: (u64, Seq<u8>), disk: Seq<u8>) -> bool {
    &&& chunk.0 % PHYSICAL_READ_CHUNK_SIZE == 0
    &&& chunk.0 < disk.len()
    &&& chunk.1 == disk.subrange(chunk.0 as int, chunk_end(chunk.0 as int, disk.len() as int))
}

/// One piece of a disk kept in memory.
pub struct CachedPhysicalChunk {
    offset: u64,
    bytes: Vec<u8>,
}

/// The pieces of one disk read most recently, the least recently used first.
pub struct PhysicalReadCache {
    entries: VecDeque<CachedPhysicalChunk>,
}

/// The offset and content of each kept piece.
pub closed spec fn chunk_views(entries: Seq<CachedPhysicalChunk>) -> Seq<(u64, Seq<u8>)> {
    entries.map_values(|c: CachedPhysicalChunk| (c.offset, c.bytes@))
}

/// The index of the first piece that starts at `offset`, if any.
pub open spec fn first_at(chunks: Seq<(u64, Seq<u8>)>, offset: u64) -> Option<int> {
    if exists|k: int| 0 <= k < chunks.len() && chunks[k].0 == offset {
        Some(choose|k: int| 0 <= k < chunks.len() && chunks[k].0 == offset && forall|j: int| 0 <= j < k ==> chunks[j].0 != offset)
    } else {
        None
    }
}

/// `chunks` with `chunk` as the most recently used piece, dropping the least
/// recently used one beyond `PHYSICAL_READ_CACHE_CHUNKS`.
pub open spec fn kept_after_put(chunks: Seq<(u64, Seq<u8>)>, chunk: (u64, Seq<u8>)) -> Seq<(u64, Seq<u8>)> {
    if chunks.len() + 1 > PHYSICAL_READ_CACHE_CHUNKS {
        chunks.push(chunk).drop_first()
    } else {
        chunks.push(chunk)
    }
}

impl PhysicalReadCache {
    /// The kept pieces, least recently used first.
    pub closed spec fn chunks(&self) -> Seq<(u64, Seq<u8>)> {
        chunk_views(self.entries@)
    }

    /// Whether the cache is within its capacity and every kept piece holds what
    /// `disk` holds.
    pub open spec fn agrees_with(&self, disk: Seq<u8>) -> bool {
        &&& self.chunks().len() <= PHYSICAL_READ_CACHE_CHUNKS
        &&& forall|k: int| 0 <= k < self.chunks().len() ==> chunk_agrees(#[trigger] self.chunks()[k], disk)
    }

    /// An empty cache.
    pub fn new() -> (c: Self)
        ensures
            c.chunks().len() == 0,
    {
        let c = PhysicalReadCache { entries: VecDeque::new() };
        assert(c.chunks() =~= Seq::empty());
        c
    }

    /// Takes the first kept piece that starts at `offset` out of the cache.
    pub fn take(&mut self, offset: u64) -> (r: Option<Vec<u8>>)
        ensures
            match first_at(old(self).chunks(), offset) {
                Some(k) => r matches Some(bytes) && bytes@ == old(self).chunks()[k].1
                    && final(self).chunks() == old(self).chunks().remove(k),
                None => r is None && final(self).chunks() == old(self).chunks(),
            },
    {
        let ghost before = self.chunks();
        let mut i: usize = 0;
        while i < self.entries.len()
            invariant
                i <= self.entries@.len(),
                before == chunk_views(self.entries@),
                before == old(self).chunks(),
                forall|j: int| 0 <= j < i ==> before[j].0 != offset,
            decreases self.entries@.len() - i,
        {
            if self.entries[i].offset == offset {
                let ghost k = i as int;
                assert(0 <= k < before.len() && before[k].0 == offset && forall|j: int|
                    0 <= j < k ==> before[j].0 != offset);
                assert(first_at(before, offset) == Some(k)) by {
                    let c = choose|c: int| 0 <= c < before.len() && before[c].0 == offset && forall|j: int|
                        0 <= j < c ==> before[j].0 != offset;
                    if c < k {
                        assert(before[c].0 != offset);
                    }
                    if k < c {
                        assert(before[k].0 != offset);
                    }
                }
                match self.entries.remove(i) {
                    Some(chunk) => {
                        assert(self.chunks() =~= before.remove(k));
                        assert(chunk.bytes@ == before[k].1);
                        return Some(chunk.bytes);
                    },
                    None => {
                        return None;
                    },
                }
            }
            i = i + 1;
        }
        assert(!(exists|k: int| 0 <= k < before.len() && before[k].0 == offset));
        None
    }

    /// Keeps a piece as the most recently used one, dropping the least recently
    /// used piece beyond the capacity.
    pub fn put(&mut self, offset: u64, bytes: Vec<u8>)
        ensures
            final(self).chunks() == kept_after_put(old(self).chunks(), (offset, bytes@)),
    {
        let ghost before = self.chunks();
        self.entries.push_back(CachedPhysicalChunk { offset, bytes });
        assert(self.chunks() =~= before.push((offset, bytes@)));
        if self.entries.len() > PHYSICAL_READ_CACHE_CHUNKS {
            let _ = self.entries.pop_front();
            assert(self.chunks() =~= before.push((offset, bytes@)).drop_first());
        }
    }
}

/// Dropping or adding agreeing pieces keeps a cache in agreement with its disk.
proof fn lemma_agreement_kept(chunks: Seq<(u64, Seq<u8>)>, disk: Seq<u8>, k: int, chunk: (u64, Seq<u8>))
    requires
        forall|j: int| 0 <= j < chunks.len() ==> chunk_agrees(#[trigger] chunks[j], disk),
        chunk_agrees(chunk, disk),
        0 <= k < chunks.len(),
    ensures
        forall|j: int| 0 <= j < chunks.remove(k).len() ==> chunk_agrees(#[trigger] chunks.remove(k)[j], disk),
        forall|j: int|
            0 <= j < kept_after_put(chunks, chunk).len() ==> chunk_agrees(
                #[trigger] kept_after_put(chunks, chunk)[j],
                disk,
            ),
{
    assert forall|j: int| 0 <= j < chunks.remove(k).len() implies chunk_agrees(#[trigger] chunks.remove(k)[j], disk) by {
        if j < k {
            assert(chunks.remove(k)[j] == chunks[j]);
        } else {
            assert(chunks.remove(k)[j] == chunks[j + 1]);
        }
    }
    lemma_put_agrees(chunks, disk, chunk);
}

proof fn lemma_put_agrees(chunks: Seq<(u64, Seq<u8>)>, disk: Seq<u8>, chunk: (u64, Seq<u8>))
    requires
        forall|j: int| 0 <= j < chunks.len() ==> chunk_agrees(#[trigger] chunks[j], disk),
        chunk_agrees(chunk, disk),
    ensures
        forall|j: int|
            0 <= j < kept_after_put(chunks, chunk).len() ==> chunk_agrees(
                #[trigger] kept_after_put(chunks, chunk)[j],
                disk,
            ),
{
    let pushed = chunks.push(chunk);
    assert forall|j: int| 0 <= j < pushed.len() implies chunk_agrees(#[trigger] pushed[j], disk) by {
        if j < chunks.len() {
            assert(pushed[j] == chunks[j]);
        }
    }
    if chunks.len() + 1 > PHYSICAL_READ_CACHE_CHUNKS {
        assert forall|j: int| 0 <= j < pushed.drop_first().len() implies chunk_agrees(
            #[trigger] pushed.drop_first()[j],
            disk,
        ) by {
            assert(pushed.drop_first()[j] == pushed[j + 1]);
        }
    }
}

/// Reads `destination.len()` bytes at `offset` of `device` in aligned pieces,
/// taking pieces from `cache` where it keeps them and keeping every piece read.
/// The cache never changes what a read returns.
pub fn read_cached<D: BlockReader + ?Sized>(
    device: &D,
    cache: &mut PhysicalReadCache,
    offset: u64,
    destination: &mut [u8],
) -> (r: Result<()>)
    requires
        old(cache).agrees_with(device.bytes()),
    ensures
        final(cache).agrees_with(device.bytes()),
        final(destination)@.len() == old(destination)@.len(),
        r is Ok ==> offset + old(destination)@.len() <= device.bytes().len()
            && final(destination)@ == device.bytes().subrange(
            offset as int,
            offset + old(destination)@.len(),
        ),
        device.reliable() && offset + old(destination)@.len() <= device.bytes().len() && offset
            + old(destination)@.len() + PHYSICAL_READ_CHUNK_SIZE <= u64::MAX ==> r is Ok,
        device.reliable() && offset + old(destination)@.len() > device.bytes().len() ==> (r matches Err(
            e,
        ) && e.kind() == ErrorCategory::StorageAccess),
{
    let ghost disk = device.bytes();
    let size = device.len()?;
    let n = destination.len();
    validate_read_range(size, offset, n)?;
    if n == 0 {
        assert(destination@ =~= disk.subrange(offset as int, offset as int));
        return Ok(());
    }
    let end = offset + n as u64;
    let mut chunk_offset = offset / PHYSICAL_READ_CHUNK_SIZE * PHYSICAL_READ_CHUNK_SIZE;
    assert(chunk_offset % PHYSICAL_READ_CHUNK_SIZE == 0 && chunk_offset <= offset
        && offset < chunk_offset + PHYSICAL_READ_CHUNK_SIZE) by (nonlinear_arith)
        requires
            chunk_offset == offset / PHYSICAL_READ_CHUNK_SIZE * PHYSICAL_READ_CHUNK_SIZE,
    ;
    while chunk_offset < end
        invariant
            disk == device.bytes(),
            size == disk.len(),
            n == destination@.len(),
            n == old(destination)@.len(),
            end == offset + n,
            end <= size,
            chunk_offset % PHYSICAL_READ_CHUNK_SIZE == 0,
            offset < chunk_offset + PHYSICAL_READ_CHUNK_SIZE,
            chunk_offset < end + PHYSICAL_READ_CHUNK_SIZE,
            cache.agrees_with(disk),
            forall|j: int|
                0 <= j < n && offset + j < chunk_offset ==> destination@[j] == disk[offset + j],
        decreases end + PHYSICAL_READ_CHUNK_SIZE - chunk_offset,
    {
        let available = size - chunk_offset;
        let chunk_len: usize = if available < PHYSICAL_READ_CHUNK_SIZE {
            available as usize
        } else {
            PHYSICAL_READ_CHUNK_SIZE as usize
        };
        let ghost chunks_before = cache.chunks();
        let bytes = match cache.take(chunk_offset) {
            Some(bytes) => {
                proof {
                    let k = first_at(chunks_before, chunk_offset).unwrap();
                    assert(chunk_agrees(chunks_before[k], disk));
                    lemma_agreement_kept(chunks_before, disk, k, chunks_before[k]);
                }
                bytes
            },
            None => {
                let mut bytes: Vec<u8> = vec![0u8; chunk_len];
                match device.read_exact_at(chunk_offset, bytes.as_mut_slice()) {
                    Ok(()) => {},
                    Err(error) => return Err(error),
                }
                bytes
            },
        };
        assert(bytes@ == disk.subrange(
            chunk_offset as int,
            chunk_end(chunk_offset as int, disk.len() as int),
        ));
        let copy_start = if offset > chunk_offset {
            offset
        } else {
            chunk_offset
        };
        let chunk_stop = chunk_offset + bytes.len() as u64;
        let copy_end = if end < chunk_stop {
            end
        } else {
            chunk_stop
        };
        let mut at = copy_start;
        while at < copy_end
            invariant
                disk == device.bytes(),
                n == destination@.len(),
                end == offset + n,
                end <= disk.len(),
                offset <= copy_start <= at,
                chunk_offset <= copy_start,
                copy_end <= end,
                copy_end <= chunk_stop,
                chunk_stop == chunk_offset + bytes@.len(),
                chunk_stop <= disk.len(),
                bytes@.len() <= PHYSICAL_READ_CHUNK_SIZE,
                bytes@ == disk.subrange(chunk_offset as int, chunk_stop as int),
                forall|j: int|
                    0 <= j < n && offset + j < chunk_offset ==> destination@[j] == disk[offset + j],
                forall|j: int|
                    0 <= j < n && copy_start <= offset + j < at ==> destination@[j] == disk[offset + j],
            decreases copy_end - at,
        {
            let index = (at - chunk_offset) as usize;
            assert(index < bytes@.len());
            let value = bytes[index];
            assert(value == disk.subrange(chunk_offset as int, chunk_stop as int)[index as int]);
            assert(value == disk[at as int]);
            destination[(at - offset) as usize] = value;
            assert(destination@[(at - offset) as int] == disk[at as int]);
            at = at + 1;
        }
        let ghost taken = cache.chunks();
        cache.put(chunk_offset, bytes);
        proof {
            assert(chunk_agrees((chunk_offset, bytes@), disk));
            lemma_put_agrees(taken, disk, (chunk_offset, bytes@));
        }
        if chunk_offset > u64::MAX - PHYSICAL_READ_CHUNK_SIZE {
            return Err(Error::new(ErrorCategory::StorageAccess, "physical chunk offset overflow"));
        }
        chunk_offset = chunk_offset + PHYSICAL_READ_CHUNK_SIZE;
    }
    assert(destination@ =~= disk.subrange(offset as int, offset + n));
    Ok(())
}

} // verus!
