//! The decisions of the XFS read-only backend that stand apart from its parser:
//! what its superblock and inodes give, which reads it refuses, and how a read
//! is served from a file held in memory.
use vstd::prelude::*;

use crate::backends::MAX_MATERIALIZED_FILE;
use crate::error::{Error, ErrorCategory, Result};
use crate::filesystem::{FileKind, FilesystemInfo, NodeMetadata};

verus! {

/// The size of an XFS filesystem: blocks per allocation group times allocation
/// groups times block size, where that fits in 64 bits.
pub open spec fn xfs_total_size(agblocks: u32, agcount: u32, blocksize: u32) -> Option<u64> {
    let total = agblocks * agcount * blocksize;
    if total <= u64::MAX {
        Some(total as u64)
    } else {
        None
    }
}

/// The details of an XFS filesystem from its superblock's geometry; it records no
/// label, UUID or free space that this backend reads.
pub fn xfs_info(agblocks: u32, agcount: u32, blocksize: u32) -> (r: FilesystemInfo)
    ensures
        r.filesystem_type@ == "XFS"@,
        r.label is None,
        r.uuid is None,
        r.block_size == Some(blocksize),
        r.total_size == xfs_total_size(agblocks, agcount, blocksize),
        r.free_size is None,
{
    assert(agblocks as u64 * agcount as u64 <= 0xffff_fffe_0000_0001u64) by (nonlinear_arith)
        requires
            agblocks <= 0xffff_ffffu32,
            agcount <= 0xffff_ffffu32,
    ;
    let blocks: u64 = agblocks as u64 * agcount as u64;
    let total_size = blocks.checked_mul(blocksize as u64);
    proof {
        assert(agblocks * agcount * blocksize == (agblocks * agcount) * blocksize) by (nonlinear_arith);
    }
    FilesystemInfo {
        filesystem_type: String::from_str("XFS"),
        label: None,
        uuid: None,
        block_size: Some(blocksize),
        total_size,
        free_size: None,
    }
}

/// The metadata of an XFS inode of kind `kind`, size `size` and mode `mode`: its
/// permission bits, with no owner.
pub fn xfs_metadata(kind: FileKind, size: u64, mode: u16) -> (r: NodeMetadata)
    ensures
        r == (NodeMetadata { kind, size, permissions: mode & 0o7777u16, uid: 0, gid: 0 }),
{
    NodeMetadata { kind, size, permissions: mode & 0o7777u16, uid: 0, gid: 0 }
}

/// Accepts a read of an XFS inode of kind `kind` and size `size`: only regular
/// files, and only up to the size read whole into memory.
pub fn xfs_file_read_check(kind: FileKind, size: u64) -> (r: Result<()>)
    ensures
        kind != FileKind::Regular ==> (r matches Err(e) && e.kind() == ErrorCategory::InvalidImage
            && e.text() == "XFS path is not a regular file"@),
        kind == FileKind::Regular && size > MAX_MATERIALIZED_FILE ==> (r matches Err(e) && e.kind()
            == ErrorCategory::UnsupportedFeature && e.text()
            == "XFS file exceeds the safe 64 MiB reader limit"@),
        kind == FileKind::Regular && size <= MAX_MATERIALIZED_FILE ==> r is Ok,
{
    if kind != FileKind::Regular {
        return Err(Error::new(ErrorCategory::InvalidImage, "XFS path is not a regular file"));
    }
    if size > MAX_MATERIALIZED_FILE {
        return Err(
            Error::new(ErrorCategory::UnsupportedFeature, "XFS file exceeds the safe 64 MiB reader limit"),
        );
    }
    Ok(())
}

/// How many bytes a read of `requested` bytes at `offset` of a file of
/// `file_len` bytes gives: what is left of the file, at most `requested`.
pub open spec fn file_read_len(file_len: int, offset: int, requested: int) -> int {
    if offset >= file_len {
        0
    } else if file_len - offset < requested {
        file_len - offset
    } else {
        requested
    }
}

/// Serves a read of `destination.len()` bytes at `offset` from the whole
/// contents `file`: copies what is left of the file there, at most the
/// destination's length, and returns how many bytes that is.
pub fn read_from_contents(file: &[u8], offset: u64, destination: &mut [u8]) -> (n: usize)
    ensures
        n == file_read_len(file@.len() as int, offset as int, old(destination)@.len() as int),
        final(destination)@.len() == old(destination)@.len(),
        forall|j: int| 0 <= j < n ==> final(destination)@[j] == file@[offset + j],
        final(destination)@.subrange(n as int, final(destination)@.len() as int) == old(
            destination,
        )@.subrange(n as int, old(destination)@.len() as int),
{
    let len = file.len();
    if offset >= len as u64 {
        return 0;
    }
    let start = offset as usize;
    let left = len - start;
    let count = if left < destination.len() {
        left
    } else {
        destination.len()
    };
    let mut i: usize = 0;
    while i < count
        invariant
            i <= count,
            count <= destination@.len(),
            start + count <= file@.len(),
            file@.len() == len,
            start == offset,
            destination@.len() == old(destination)@.len(),
            forall|j: int| 0 <= j < i ==> destination@[j] == file@[start + j],
            forall|j: int| count <= j < destination@.len() ==> destination@[j] == old(destination)@[j],
        decreases count - i,
    {
        destination[i] = file[start + i];
        i = i + 1;
    }
    assert(destination@.subrange(count as int, destination@.len() as int) =~= old(destination)@.subrange(
        count as int,
        old(destination)@.len() as int,
    ));
    count
}

/// The target of a symbolic link kept inside its inode: the first `size` bytes
/// of its data fork, or all of them where it is shorter; none where `size` does
/// not fit a `usize`.
pub open spec fn local_target(data_fork: Seq<u8>, size: u64) -> Seq<u8> {
    if size > usize::MAX {
        Seq::empty()
    } else if size < data_fork.len() {
        data_fork.take(size as int)
    } else {
        data_fork
    }
}

/// The target of a symbolic link kept inside its inode, as [`local_target`]
/// states.
pub fn local_link_target(data_fork: &[u8], size: u64) -> (r: Vec<u8>)
    ensures
        r@ == local_target(data_fork@, size),
{
    let n: usize = if size > usize::MAX as u64 {
        0
    } else if (size as usize) < data_fork.len() {
        size as usize
    } else {
        data_fork.len()
    };
    let mut r: Vec<u8> = Vec::new();
    let mut i: usize = 0;
    while i < n
        invariant
            i <= n,
            n <= data_fork@.len(),
            r@ == data_fork@.take(i as int),
        decreases n - i,
    {
        r.push(data_fork[i]);
        assert(data_fork@.take(i + 1) =~= data_fork@.take(i as int).push(data_fork@[i as int]));
        i = i + 1;
    }
    assert(data_fork@.take(data_fork@.len() as int) =~= data_fork@);
    r
}

/// The error for an XFS parser failure that the parser describes as `detail`.
pub fn xfs_error(detail: &str) -> (e: Error)
    ensures
        e.kind() == ErrorCategory::FilesystemCorrupt,
        e.text() == "XFS operation failed: "@ + detail@,
{
    let mut message = String::from_str("XFS operation failed: ");
    message.append(detail);
    Error::new(ErrorCategory::FilesystemCorrupt, message.as_str())
}

} // verus!
