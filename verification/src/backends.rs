use vstd::prelude::*;

use std::sync::Arc;

use crate::block::BlockReader;
use crate::bytes::{le_u32, le_u64, read_u32_le, read_u64_le};
use crate::error::{Error, ErrorCategory, Result};
use crate::filesystem::{
    DirectoryEntry, FileKind, FilesystemInfo, FsPath, NodeMetadata, ReadOnlyFilesystem,
};

verus! {

/// The filesystems the library reads.
#[derive(Debug, Clone, Copy, PartialEq, Eq, Structural)]
pub enum BackendKind {
    Ext,
    Squashfs,
    Xfs,
}

/// The filesystem that the first four bytes of a source announce: SquashFS for
/// `hsqs`, XFS for `XFSB`, and Ext otherwise, whose own check comes later.
pub open spec fn magic_kind(magic: Seq<u8>) -> BackendKind {
    if magic == seq![0x68u8, 0x73u8, 0x71u8, 0x73u8] {
        BackendKind::Squashfs
    } else if magic == seq![0x58u8, 0x46u8, 0x53u8, 0x42u8] {
        BackendKind::Xfs
    } else {
        BackendKind::Ext
    }
}

/// The filesystem that the first four bytes of a source announce.
pub fn backend_for_magic(magic: &[u8; 4]) -> (kind: BackendKind)
    ensures
        kind == magic_kind(magic@),
{
    if magic[0] == 0x68 && magic[1] == 0x73 && magic[2] == 0x71 && magic[3] == 0x73 {
        assert(magic@ =~= seq![0x68u8, 0x73u8, 0x71u8, 0x73u8]);
        BackendKind::Squashfs
    } else if magic[0] == 0x58 && magic[1] == 0x46 && magic[2] == 0x53 && magic[3] == 0x42 {
        assert(magic@ =~= seq![0x58u8, 0x46u8, 0x53u8, 0x42u8]);
        BackendKind::Xfs
    } else {
        BackendKind::Ext
    }
}

/// How a backend names its filesystem.
pub open spec fn kind_text(kind: BackendKind) -> Seq<char> {
    match kind {
        BackendKind::Ext => "ext2/ext3/ext4"@,
        BackendKind::Squashfs => "SquashFS 4.0"@,
        BackendKind::Xfs => "XFS"@,
    }
}

/// How a backend names its filesystem.
pub fn kind_name(kind: BackendKind) -> (r: &'static str)
    ensures
        r@ == kind_text(kind),
{
    match kind {
        BackendKind::Ext => "ext2/ext3/ext4",
        BackendKind::Squashfs => "SquashFS 4.0",
        BackendKind::Xfs => "XFS",
    }
}

/// The largest XFS source read whole into memory, whose parser needs all of it.
pub const MAX_MATERIALIZED_IMAGE: u64 = 2147483648;

/// The largest XFS file read whole into memory.
pub const MAX_MATERIALIZED_FILE: u64 = 67108864;

/// Accepts the length of an XFS source that may be read whole into memory.
pub fn validate_xfs_image_length(length: u64) -> (r: Result<usize>)
    ensures
        length <= MAX_MATERIALIZED_IMAGE ==> r == Ok::<usize, Error>(length as usize),
        length > MAX_MATERIALIZED_IMAGE ==> (r matches Err(e) && e.kind()
            == ErrorCategory::UnsupportedFeature),
{
    if length > MAX_MATERIALIZED_IMAGE {
        return Err(
            Error::new(
                ErrorCategory::UnsupportedFeature,
                "XFS source exceeds the safe 2 GiB reader limit; streaming XFS support is not available yet",
            ),
        );
    }
    Ok(length as usize)
}

/// Opens the filesystems whose structures outside parsers read.
pub trait BackendOpeners {
    type Ext: ReadOnlyFilesystem;
    type Squashfs: ReadOnlyFilesystem;
    type Xfs: ReadOnlyFilesystem;

    /// Opens an Ext filesystem that streams from `reader`.
    fn open_ext<R: BlockReader + ?Sized + 'static>(&self, reader: Arc<R>) -> Result<Self::Ext>;

    /// Opens a SquashFS filesystem that streams from `reader`.
    fn open_squashfs<R: BlockReader + ?Sized + 'static>(&self, reader: Arc<R>) -> Result<
        Self::Squashfs,
    >;

    /// Opens an XFS filesystem held whole in `image`.
    fn open_xfs(&self, image: Vec<u8>) -> Result<Self::Xfs>;
}

/// Whether `r` is what an opener's outcome `res` gives: the backend it opened,
/// made by `wrap`, or its error.
pub open spec fn opened_as<B, T>(res: Result<B>, r: Result<T>, wrap: spec_fn(B) -> T) -> bool {
    match res {
        Ok(b) => r == Ok::<T, Error>(wrap(b)),
        Err(e) => r == Err::<T, Error>(e),
    }
}

/// A read-only filesystem of one of the supported kinds.
pub enum ReadOnlyBackend<E, S, X> {
    Ext(E),
    Squashfs(S),
    Xfs(X),
}

impl<E: ReadOnlyFilesystem, S: ReadOnlyFilesystem, X: ReadOnlyFilesystem> ReadOnlyBackend<E, S, X> {
    /// The kind of filesystem this backend reads.
    pub open spec fn backend_kind(&self) -> BackendKind {
        match self {
            ReadOnlyBackend::Ext(_) => BackendKind::Ext,
            ReadOnlyBackend::Squashfs(_) => BackendKind::Squashfs,
            ReadOnlyBackend::Xfs(_) => BackendKind::Xfs,
        }
    }

    /// Opens the filesystem of `reader` with the backend its first four bytes
    /// announce. An XFS source above the in-memory limit is refused before any of
    /// it is read.
    pub fn open<R: BlockReader + ?Sized + 'static, O: BackendOpeners<
        Ext = E,
        Squashfs = S,
        Xfs = X,
    >>(reader: Arc<R>, openers: &O) -> (r: Result<Self>)
        ensures
            r matches Ok(backend) ==> (*reader).bytes().len() >= 4 && backend.backend_kind()
                == magic_kind((*reader).bytes().subrange(0, 4)),
            r matches Ok(ReadOnlyBackend::Ext(b)) ==> call_ensures(O::open_ext::<R>, (openers, reader), Ok::<E, Error>(b)),
            r matches Ok(ReadOnlyBackend::Squashfs(b)) ==> call_ensures(O::open_squashfs::<R>, (openers, reader), Ok::<S, Error>(b)),
            r matches Ok(ReadOnlyBackend::Xfs(b)) ==> ((*reader).bytes().len() <= MAX_MATERIALIZED_IMAGE && exists|image: Vec<u8>|
                image@ == (*reader).bytes() && #[trigger] call_ensures(O::open_xfs, (openers, image), Ok::<X, Error>(b))),
            (*reader).reliable() && (*reader).bytes().len() >= 4 ==> match magic_kind((*reader).bytes().subrange(0, 4)) {
                BackendKind::Ext => exists|res: Result<E>|
                    #[trigger] call_ensures(O::open_ext::<R>, (openers, reader), res) && opened_as(res, r, |b: E| ReadOnlyBackend::Ext(b)),
                BackendKind::Squashfs => exists|res: Result<S>|
                    #[trigger] call_ensures(O::open_squashfs::<R>, (openers, reader), res) && opened_as(res, r, |b: S| ReadOnlyBackend::Squashfs(b)),
                BackendKind::Xfs => (*reader).bytes().len() <= MAX_MATERIALIZED_IMAGE ==> exists|image: Vec<u8>, res: Result<X>|
                    image@ == (*reader).bytes() && #[trigger] call_ensures(O::open_xfs, (openers, image), res) && opened_as(res, r, |b: X| ReadOnlyBackend::Xfs(b)),
            },
            (*reader).reliable() && (*reader).bytes().len() >= 4 && magic_kind(
                (*reader).bytes().subrange(0, 4),
            ) == BackendKind::Xfs && (*reader).bytes().len() > MAX_MATERIALIZED_IMAGE ==> (r matches Err(
                e,
            ) && e.kind() == ErrorCategory::UnsupportedFeature),
            (*reader).bytes().len() < 4 ==> r is Err,
            (*reader).reliable() && (*reader).bytes().len() < 4 ==> (r matches Err(e) && e.kind()
                == ErrorCategory::StorageAccess),
    {
        let mut magic = [0u8; 4];
        reader.read_exact_at(0, &mut magic)?;
        match backend_for_magic(&magic) {
            BackendKind::Squashfs => {
                match openers.open_squashfs(reader) {
                    Ok(backend) => Ok(ReadOnlyBackend::Squashfs(backend)),
                    Err(e) => Err(e),
                }
            },
            BackendKind::Xfs => {
                let length = reader.len()?;
                let size = validate_xfs_image_length(length)?;
                let mut image: Vec<u8> = vec![0u8; size];
                reader.read_exact_at(0, image.as_mut_slice())?;
                let ghost whole = image;
                assert(whole@ =~= (*reader).bytes());
                let opened = openers.open_xfs(image);
                assert(call_ensures(O::open_xfs, (openers, whole), opened));
                match opened {
                    Ok(backend) => {
                        assert(length == (*reader).bytes().len() && length <= MAX_MATERIALIZED_IMAGE);
                        assert(call_ensures(O::open_xfs, (openers, whole), Ok::<X, Error>(backend)));
                        let r: Result<Self> = Ok(ReadOnlyBackend::Xfs(backend));
                        assert(r->Ok_0->Xfs_0 == backend);
                        r
                    },
                    Err(e) => Err(e),
                }
            },
            BackendKind::Ext => {
                match openers.open_ext(reader) {
                    Ok(backend) => Ok(ReadOnlyBackend::Ext(backend)),
                    Err(e) => Err(e),
                }
            },
        }
    }

    /// How this backend names its filesystem.
    pub fn kind(&self) -> (r: &'static str)
        ensures
            r@ == kind_text(self.backend_kind()),
    {
        match self {
            ReadOnlyBackend::Ext(_) => kind_name(BackendKind::Ext),
            ReadOnlyBackend::Squashfs(_) => kind_name(BackendKind::Squashfs),
            ReadOnlyBackend::Xfs(_) => kind_name(BackendKind::Xfs),
        }
    }
}

impl<E: ReadOnlyFilesystem, S: ReadOnlyFilesystem, X: ReadOnlyFilesystem> ReadOnlyFilesystem for ReadOnlyBackend<
    E,
    S,
    X,
> {
    fn info(&self) -> (r: Result<FilesystemInfo>)
        ensures
            match self {
                ReadOnlyBackend::Ext(v) => call_ensures(E::info, (v,), r),
                ReadOnlyBackend::Squashfs(v) => call_ensures(S::info, (v,), r),
                ReadOnlyBackend::Xfs(v) => call_ensures(X::info, (v,), r),
            },
    {
        match self {
            ReadOnlyBackend::Ext(v) => v.info(),
            ReadOnlyBackend::Squashfs(v) => v.info(),
            ReadOnlyBackend::Xfs(v) => v.info(),
        }
    }

    fn lookup(&self, path: &FsPath) -> (r: Result<NodeMetadata>)
        ensures
            match self {
                ReadOnlyBackend::Ext(v) => call_ensures(E::lookup, (v, path), r),
                ReadOnlyBackend::Squashfs(v) => call_ensures(S::lookup, (v, path), r),
                ReadOnlyBackend::Xfs(v) => call_ensures(X::lookup, (v, path), r),
            },
    {
        match self {
            ReadOnlyBackend::Ext(v) => v.lookup(path),
            ReadOnlyBackend::Squashfs(v) => v.lookup(path),
            ReadOnlyBackend::Xfs(v) => v.lookup(path),
        }
    }

    fn read_dir(&self, path: &FsPath) -> (r: Result<Vec<DirectoryEntry>>)
        ensures
            match self {
                ReadOnlyBackend::Ext(v) => call_ensures(E::read_dir, (v, path), r),
                ReadOnlyBackend::Squashfs(v) => call_ensures(S::read_dir, (v, path), r),
                ReadOnlyBackend::Xfs(v) => call_ensures(X::read_dir, (v, path), r),
            },
    {
        match self {
            ReadOnlyBackend::Ext(v) => v.read_dir(path),
            ReadOnlyBackend::Squashfs(v) => v.read_dir(path),
            ReadOnlyBackend::Xfs(v) => v.read_dir(path),
        }
    }

    fn read_file_at(&self, path: &FsPath, offset: u64, destination: &mut [u8]) -> (r: Result<usize>)
        ensures
            match self {
                ReadOnlyBackend::Ext(v) => exists|d: &mut [u8]|
                    #[trigger] call_ensures(E::read_file_at, (v, path, offset, d), r) && d@ == old(
                        destination,
                    )@ && final(d)@ == final(destination)@,
                ReadOnlyBackend::Squashfs(v) => exists|d: &mut [u8]|
                    #[trigger] call_ensures(S::read_file_at, (v, path, offset, d), r) && d@ == old(
                        destination,
                    )@ && final(d)@ == final(destination)@,
                ReadOnlyBackend::Xfs(v) => exists|d: &mut [u8]|
                    #[trigger] call_ensures(X::read_file_at, (v, path, offset, d), r) && d@ == old(
                        destination,
                    )@ && final(d)@ == final(destination)@,
            },
    {
        let r = match self {
            ReadOnlyBackend::Ext(v) => {
                let r = v.read_file_at(path, offset, destination);
                assert(exists|d: &mut [u8]|
                    #[trigger] call_ensures(E::read_file_at, (v, path, offset, d), r) && d@ == old(
                        destination,
                    )@ && final(d)@ == destination@);
                r
            },
            ReadOnlyBackend::Squashfs(v) => {
                let r = v.read_file_at(path, offset, destination);
                assert(exists|d: &mut [u8]|
                    #[trigger] call_ensures(S::read_file_at, (v, path, offset, d), r) && d@ == old(
                        destination,
                    )@ && final(d)@ == destination@);
                r
            },
            ReadOnlyBackend::Xfs(v) => {
                let r = v.read_file_at(path, offset, destination);
                assert(exists|d: &mut [u8]|
                    #[trigger] call_ensures(X::read_file_at, (v, path, offset, d), r) && d@ == old(
                        destination,
                    )@ && final(d)@ == destination@);
                r
            },
        };
        assert(final(destination)@ == destination@);
        r
    }

    fn read_link(&self, path: &FsPath) -> (r: Result<FsPath>)
        ensures
            match self {
                ReadOnlyBackend::Ext(v) => call_ensures(E::read_link, (v, path), r),
                ReadOnlyBackend::Squashfs(v) => call_ensures(S::read_link, (v, path), r),
                ReadOnlyBackend::Xfs(v) => call_ensures(X::read_link, (v, path), r),
            },
    {
        match self {
            ReadOnlyBackend::Ext(v) => v.read_link(path),
            ReadOnlyBackend::Squashfs(v) => v.read_link(path),
            ReadOnlyBackend::Xfs(v) => v.read_link(path),
        }
    }
}

/// Opens the filesystem of `reader` read-only with the backend its first four
/// bytes announce.
pub fn open_read_only<R: BlockReader + ?Sized + 'static, O: BackendOpeners>(
    reader: Arc<R>,
    openers: &O,
) -> (r: Result<ReadOnlyBackend<O::Ext, O::Squashfs, O::Xfs>>)
    ensures
        r matches Ok(backend) ==> (*reader).bytes().len() >= 4 && backend.backend_kind()
            == magic_kind((*reader).bytes().subrange(0, 4)),
        call_ensures(ReadOnlyBackend::<O::Ext, O::Squashfs, O::Xfs>::open::<R, O>, (reader, openers), r),
{
    ReadOnlyBackend::open(reader, openers)
}

/// The error for a source that no backend reads.
pub fn unsupported_summary() -> (e: Error)
    ensures
        e.kind() == ErrorCategory::UnsupportedFilesystem,
        e.text() == "no supported Ext, SquashFS, or XFS filesystem found"@,
{
    Error::new(
        ErrorCategory::UnsupportedFilesystem,
        "no supported Ext, SquashFS, or XFS filesystem found",
    )
}

/// The kind of a node from the questions an outside parser answers about it.
pub fn file_kind(is_dir: bool, is_symlink: bool, is_regular: bool) -> (k: FileKind)
    ensures
        k == (if is_dir {
            FileKind::Directory
        } else if is_symlink {
            FileKind::Symlink
        } else if is_regular {
            FileKind::Regular
        } else {
            FileKind::Other
        }),
{
    if is_dir {
        FileKind::Directory
    } else if is_symlink {
        FileKind::Symlink
    } else if is_regular {
        FileKind::Regular
    } else {
        FileKind::Other
    }
}

/// How the Ext parser reports a failure.
#[derive(Debug, Clone, Copy, PartialEq, Eq, Structural)]
pub enum ExtFailure {
    Io,
    Incompatible,
    Encrypted,
    Corrupt,
    Other,
}

/// The category of an Ext parser failure.
pub open spec fn ext_failure_category(failure: ExtFailure) -> ErrorCategory {
    match failure {
        ExtFailure::Io => ErrorCategory::StorageAccess,
        ExtFailure::Incompatible => ErrorCategory::UnsupportedFeature,
        ExtFailure::Encrypted => ErrorCategory::UnsupportedFilesystem,
        ExtFailure::Corrupt => ErrorCategory::FilesystemCorrupt,
        ExtFailure::Other => ErrorCategory::FilesystemCorrupt,
    }
}

/// The error for an Ext parser failure that the parser describes as `detail`.
pub fn ext_error(failure: ExtFailure, detail: &str) -> (e: Error)
    ensures
        e.kind() == ext_failure_category(failure),
        e.text() == "Ext filesystem operation failed: "@ + detail@,
{
    let category = match failure {
        ExtFailure::Io => ErrorCategory::StorageAccess,
        ExtFailure::Incompatible => ErrorCategory::UnsupportedFeature,
        ExtFailure::Encrypted => ErrorCategory::UnsupportedFilesystem,
        ExtFailure::Corrupt => ErrorCategory::FilesystemCorrupt,
        ExtFailure::Other => ErrorCategory::FilesystemCorrupt,
    };
    let mut message = String::from_str("Ext filesystem operation failed: ");
    message.append(detail);
    Error::new(category, message.as_str())
}

/// Block size, total size and free size from an Ext superblock: the block size is
/// 1024 shifted left by the recorded log size within 64 bits, where the shift is
/// below 64 and the result fits in 32 bits; the sizes are the 64-bit block
/// counts times the block size, where that fits.
pub open spec fn ext_sizes(superblock: Seq<u8>) -> (Option<u32>, Option<u64>, Option<u64>) {
    let log_block_size = le_u32(superblock, 0x18);
    let shifted = 1024u64 << (log_block_size as u64);
    if log_block_size >= 64 || shifted > u32::MAX {
        (None, None, None)
    } else {
        let blocks = (le_u32(superblock, 0x04) as u64) | ((le_u32(superblock, 0x150) as u64)
            << 32u64);
        let free_blocks = (le_u32(superblock, 0x0c) as u64) | ((le_u32(superblock, 0x158) as u64)
            << 32u64);
        (
            Some(shifted as u32),
            if blocks * shifted <= u64::MAX {
                Some((blocks * shifted) as u64)
            } else {
                None
            },
            if free_blocks * shifted <= u64::MAX {
                Some((free_blocks * shifted) as u64)
            } else {
                None
            },
        )
    }
}

/// Reads the sizes recorded in the Ext superblock of `reader`, 1024 bytes in.
pub fn ext_superblock_sizes<R: BlockReader + ?Sized>(reader: &R) -> (r: Result<
    (Option<u32>, Option<u64>, Option<u64>),
>)
    ensures
        r matches Ok(sizes) ==> 2048 <= (*reader).bytes().len() && sizes == ext_sizes(
            (*reader).bytes().subrange(1024, 2048),
        ),
        (*reader).reliable() && 2048 <= (*reader).bytes().len() ==> r is Ok,
{
    let mut superblock = [0u8; 1024];
    reader.read_exact_at(1024, &mut superblock)?;
    let log_block_size = read_u32_le(&superblock, 0x18);
    if log_block_size >= 64 {
        return Ok((None, None, None));
    }
    let block_size: u64 = 1024u64 << (log_block_size as u64);
    if block_size > u32::MAX as u64 {
        return Ok((None, None, None));
    }
    let blocks = (read_u32_le(&superblock, 0x04) as u64) | ((read_u32_le(&superblock, 0x150) as u64)
        << 32u64);
    let free_blocks = (read_u32_le(&superblock, 0x0c) as u64) | ((read_u32_le(&superblock, 0x158)
        as u64) << 32u64);
    let total_size = blocks.checked_mul(block_size);
    let free_size = free_blocks.checked_mul(block_size);
    Ok((Some(block_size as u32), total_size, free_size))
}

/// The details of a SquashFS filesystem from its superblock: the block size at
/// byte 12 and the bytes used at byte 40; nothing is free.
pub open spec fn squashfs_details(header: Seq<u8>, info: FilesystemInfo) -> bool {
    &&& info.filesystem_type@ == "SquashFS 4.0"@
    &&& info.label is None
    &&& info.uuid is None
    &&& info.block_size == Some(le_u32(header, 12))
    &&& info.total_size == Some(le_u64(header, 40))
    &&& info.free_size == Some(0u64)
}

/// Reads the details of the SquashFS filesystem of `reader` from its superblock.
pub fn squashfs_info<R: BlockReader + ?Sized>(reader: &R) -> (r: Result<FilesystemInfo>)
    ensures
        r matches Ok(info) ==> 96 <= (*reader).bytes().len() && squashfs_details(
            (*reader).bytes().subrange(0, 96),
            info,
        ),
        (*reader).reliable() && 96 <= (*reader).bytes().len() ==> r is Ok,
{
    let mut header = [0u8; 96];
    reader.read_exact_at(0, &mut header)?;
    let block_size = read_u32_le(&header, 12);
    let bytes_used = read_u64_le(&header, 40);
    Ok(
        FilesystemInfo {
            filesystem_type: String::from_str("SquashFS 4.0"),
            label: None,
            uuid: None,
            block_size: Some(block_size),
            total_size: Some(bytes_used),
            free_size: Some(0),
        },
    )
}

/// How many bytes a read of `requested` bytes at `position` of a source of
/// `source_len` bytes returns: what is left of the source, at most `requested`.
pub open spec fn cursor_read_len(source_len: u64, position: u64, requested: usize) -> int {
    let left = if position < source_len {
        source_len - position
    } else {
        0
    };
    if requested < left {
        requested as int
    } else {
        left
    }
}

/// How many bytes a read of `requested` bytes at `position` returns.
pub fn cursor_read_length(source_len: u64, position: u64, requested: usize) -> (n: usize)
    ensures
        n == cursor_read_len(source_len, position, requested),
{
    let left = if position < source_len {
        source_len - position
    } else {
        0
    };
    if (requested as u64) < left {
        requested
    } else {
        left as usize
    }
}

/// Where a seek starts from.
#[derive(Debug, Clone, Copy, PartialEq, Eq, Structural)]
pub enum SeekOrigin {
    Start(u64),
    Current(i64),
    End(i64),
}

/// The position a seek reaches, where it stays inside a source of `length`
/// bytes.
pub open spec fn seek_position(position: u64, length: u64, origin: SeekOrigin) -> Option<u64> {
    let next: int = match origin {
        SeekOrigin::Start(value) => value as int,
        SeekOrigin::Current(value) => position + value,
        SeekOrigin::End(value) => length + value,
    };
    if 0 <= next <= length {
        Some(next as u64)
    } else {
        None
    }
}

/// The position a seek reaches, or `None` where it would leave the source.
pub fn seek_target(position: u64, length: u64, origin: SeekOrigin) -> (r: Option<u64>)
    ensures
        r == seek_position(position, length, origin),
{
    let next: i128 = match origin {
        SeekOrigin::Start(value) => value as i128,
        SeekOrigin::Current(value) => position as i128 + value as i128,
        SeekOrigin::End(value) => length as i128 + value as i128,
    };
    if next < 0 || next > length as i128 {
        None
    } else {
        Some(next as u64)
    }
}

/// How a SquashFS read reports an I/O failure.
#[derive(Debug, Clone, Copy, PartialEq, Eq, Structural)]
pub enum IoFailure {
    NotFound,
    Unsupported,
    UnexpectedEof,
    Other,
}

/// The category of a SquashFS failure.
pub open spec fn squashfs_failure_category(failure: IoFailure) -> ErrorCategory {
    match failure {
        IoFailure::NotFound => ErrorCategory::InvalidImage,
        IoFailure::Unsupported => ErrorCategory::UnsupportedFeature,
        IoFailure::UnexpectedEof => ErrorCategory::FilesystemCorrupt,
        IoFailure::Other => ErrorCategory::FilesystemCorrupt,
    }
}

/// The error for a SquashFS failure that the reader describes as `detail`.
pub fn squashfs_error(failure: IoFailure, detail: &str) -> (e: Error)
    ensures
        e.kind() == squashfs_failure_category(failure),
        e.text() == "SquashFS operation failed: "@ + detail@,
        e.cause() == Some(detail@),
{
    let category = match failure {
        IoFailure::NotFound => ErrorCategory::InvalidImage,
        IoFailure::Unsupported => ErrorCategory::UnsupportedFeature,
        IoFailure::UnexpectedEof => ErrorCategory::FilesystemCorrupt,
        IoFailure::Other => ErrorCategory::FilesystemCorrupt,
    };
    let mut message = String::from_str("SquashFS operation failed: ");
    message.append(detail);
    Error::with_source(category, message.as_str(), detail)
}

} // verus!
