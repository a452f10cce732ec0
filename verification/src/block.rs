use vstd::prelude::*;

use crate::error::{Error, ErrorCategory};

verus! {

/// Logical sector size assumed for raw image files.
pub const RAW_IMAGE_LOGICAL_SECTOR_SIZE: u32 = 512;

/// Largest logical sector size accepted by [`BlockGeometry::new`].
pub const MAX_LOGICAL_SECTOR_SIZE: u32 = 65536;

/// A random-access, read-only byte source.
///
/// `bytes` is the content of the source. `len` reports its length where it
/// succeeds, and a successful `read_exact_at` copies exactly the requested range
/// of it. A source is `reliable` when every in-range read succeeds and every
/// read past its end fails with a `StorageAccess` error; a file or a
/// device may fail reads for reasons outside the library, and then it is not. A
/// source that does not state its content has some content of its own, which
/// nothing here determines and which two different sources need not share; it is
/// not taken as reliable.
pub trait BlockReader {
    open spec fn bytes(&self) -> Seq<u8> {
        (choose|held: (&Self, Seq<u8>)| held.0 == self).1
    }

    open spec fn reliable(&self) -> bool {
        false
    }

    fn len(&self) -> (r: Result<u64, Error>)
        ensures
            r matches Ok(n) ==> n == self.bytes().len(),
            self.reliable() ==> r is Ok,
    ;

    fn read_exact_at(&self, offset: u64, destination: &mut [u8]) -> (r: Result<(), Error>)
        ensures
            final(destination)@.len() == old(destination)@.len(),
            r is Ok ==> offset + old(destination)@.len() <= self.bytes().len()
                && final(destination)@ == self.bytes().subrange(
                offset as int,
                offset + old(destination)@.len(),
            ),
            self.reliable() && offset + old(destination)@.len() <= self.bytes().len() ==> r is Ok,
            self.reliable() && offset + old(destination)@.len() > self.bytes().len() ==> (r matches Err(
                e,
            ) && e.kind() == ErrorCategory::StorageAccess),
    ;
}

/// Whether `n` is a power of two.
pub open spec fn is_power_of_two(n: u32) -> bool {
    n != 0 && n & ((n - 1) as u32) == 0
}

/// The sector sizes that [`BlockGeometry::new`] accepts.
pub open spec fn supported_sector_size(n: u32) -> bool {
    RAW_IMAGE_LOGICAL_SECTOR_SIZE <= n <= MAX_LOGICAL_SECTOR_SIZE && is_power_of_two(n)
}

/// The logical sector size used to interpret partition tables.
#[derive(Debug, Clone, Copy, PartialEq, Eq, Structural)]
pub struct BlockGeometry {
    logical_sector_size: u32,
}

impl BlockGeometry {
    #[verifier::type_invariant]
    spec fn well_formed(self) -> bool {
        supported_sector_size(self.logical_sector_size)
    }

    /// The sector size of this geometry.
    pub closed spec fn sector_size(self) -> u32 {
        self.logical_sector_size
    }

    pub fn new(logical_sector_size: u32) -> (r: Result<Self, Error>)
        ensures
            r is Ok <==> supported_sector_size(logical_sector_size),
            r matches Ok(g) ==> g.sector_size() == logical_sector_size,
            r matches Err(e) ==> e.kind() == ErrorCategory::InvalidImage,
    {
        if logical_sector_size < RAW_IMAGE_LOGICAL_SECTOR_SIZE
            || logical_sector_size > MAX_LOGICAL_SECTOR_SIZE
            || logical_sector_size & (logical_sector_size - 1) != 0
        {
            return Err(Error::new(ErrorCategory::InvalidImage, "unsupported logical sector size"));
        }
        Ok(BlockGeometry { logical_sector_size })
    }

    pub fn raw_image_512() -> (g: Self)
        ensures
            g.sector_size() == 512,
    {
        assert(512u32 & 511u32 == 0) by (bit_vector);
        BlockGeometry { logical_sector_size: 512 }
    }

    pub fn logical_sector_size(self) -> (n: u32)
        ensures
            n == self.sector_size(),
            supported_sector_size(n),
    {
        proof {
            use_type_invariant(self);
        }
        self.logical_sector_size
    }
}

/// Checks that `requested_len` bytes starting at `offset` lie inside a source of
/// `source_len` bytes.
pub fn validate_read_range(source_len: u64, offset: u64, requested_len: usize) -> (r: Result<(), Error>)
    ensures
        r is Ok <==> offset + requested_len <= source_len,
        r matches Err(e) ==> e.kind() == ErrorCategory::StorageAccess,
{
    let requested = requested_len as u64;
    match offset.checked_add(requested) {
        None => Err(Error::new(ErrorCategory::StorageAccess, "read range overflow")),
        Some(end) => {
            if end > source_len {
                Err(Error::new(ErrorCategory::StorageAccess, "read extends beyond source"))
            } else {
                Ok(())
            }
        },
    }
}

/// The error for a failed file operation in `context`, described as `detail`:
/// refused access is `PermissionDenied`, anything else `StorageAccess`.
pub fn io_failure(permission_denied: bool, context: &str, detail: &str) -> (e: Error)
    ensures
        e.kind() == (if permission_denied {
            ErrorCategory::PermissionDenied
        } else {
            ErrorCategory::StorageAccess
        }),
        e.text() == context@,
        e.cause() == Some(detail@),
{
    let category = if permission_denied {
        ErrorCategory::PermissionDenied
    } else {
        ErrorCategory::StorageAccess
    };
    Error::with_source(category, context, detail)
}

/// What one positional read of an image file gave.
pub enum FileReadEvent {
    /// It read this many bytes.
    Read(usize),
    /// It was interrupted before it read anything.
    Interrupted,
    /// It failed; `permission_denied` tells whether access was refused.
    Failed { permission_denied: bool, detail: String },
}

/// What reading a range of an image file does next.
pub enum FileReadAction {
    /// Reads again at byte `at` of the file, `done` bytes of the range being read.
    ReadAt { at: u64, done: usize },
    /// The whole range is read.
    Finished,
    /// Stops with this error.
    Fail(Error),
}

/// The next step of reading the `wanted` bytes at `offset` of an image file,
/// `done` of which are read, after a read that gave `event`: a read of nothing
/// means the file ended early, an interrupted read is retried, and a failure
/// stops the read.
pub fn file_read_step(offset: u64, wanted: usize, done: usize, event: FileReadEvent) -> (a: FileReadAction)
    requires
        done < wanted,
        offset + wanted <= u64::MAX,
    ensures
        match event {
            FileReadEvent::Read(n) => if n == 0 {
                a matches FileReadAction::Fail(e) && e.kind() == ErrorCategory::StorageAccess
                    && e.text() == "image ended during read"@ && e.cause() == Some(
                    "image ended during read"@,
                )
            } else if n >= wanted - done {
                a is Finished
            } else {
                a == (FileReadAction::ReadAt { at: (offset + done + n) as u64, done: (done + n) as usize })
            },
            FileReadEvent::Interrupted => a == (FileReadAction::ReadAt { at: (offset + done) as u64, done }),
            FileReadEvent::Failed { permission_denied, detail } => a matches FileReadAction::Fail(e)
                && e.kind() == (if permission_denied {
                ErrorCategory::PermissionDenied
            } else {
                ErrorCategory::StorageAccess
            }) && e.text() == "cannot read image"@ && e.cause() == Some(detail@),
        },
{
    match event {
        FileReadEvent::Read(n) => {
            if n == 0 {
                FileReadAction::Fail(
                    Error::with_source(
                        ErrorCategory::StorageAccess,
                        "image ended during read",
                        "image ended during read",
                    ),
                )
            } else if n >= wanted - done {
                FileReadAction::Finished
            } else {
                FileReadAction::ReadAt { at: offset + (done + n) as u64, done: done + n }
            }
        },
        FileReadEvent::Interrupted => FileReadAction::ReadAt { at: offset + done as u64, done },
        FileReadEvent::Failed { permission_denied, detail } => FileReadAction::Fail(
            io_failure(permission_denied, "cannot read image", detail.as_str()),
        ),
    }
}

/// A source held in memory. Every in-range read succeeds.
pub struct MemoryReader {
    data: Vec<u8>,
}

impl MemoryReader {
    pub fn new(data: Vec<u8>) -> (r: Self)
        requires
            data@.len() <= u64::MAX,
        ensures
            r.bytes() == data@,
            r.reliable(),
    {
        MemoryReader { data }
    }
}

impl BlockReader for MemoryReader {
    closed spec fn bytes(&self) -> Seq<u8> {
        self.data@
    }

    open spec fn reliable(&self) -> bool {
        true
    }

    fn len(&self) -> (r: Result<u64, Error>) {
        Ok(self.data.len() as u64)
    }

    fn read_exact_at(&self, offset: u64, destination: &mut [u8]) -> (r: Result<(), Error>) {
        let n = destination.len();
        validate_read_range(self.data.len() as u64, offset, n)?;
        let start = offset as usize;
        let mut i: usize = 0;
        while i < n
            invariant
                i <= n,
                n == destination@.len(),
                n == old(destination)@.len(),
                start == offset,
                start + n <= self.data.len(),
                forall|j: int| 0 <= j < i ==> destination@[j] == self.data@[start + j],
            decreases n - i,
        {
            destination[i] = self.data[start + i];
            i = i + 1;
        }
        assert(destination@ =~= self.data@.subrange(offset as int, offset + n));
        Ok(())
    }
}


/// Another handle on the value that `shared` points to (std's `Arc::clone`).
#[verifier::external_body]
pub(crate) fn share<T: ?Sized>(shared: &std::sync::Arc<T>) -> (r: std::sync::Arc<T>)
    ensures
        r == *shared,
{
    std::sync::Arc::clone(shared)
}

/// A bounded read-only view over a region of another source.
pub struct PartitionReader<R: BlockReader + ?Sized> {
    source: std::sync::Arc<R>,
    offset: u64,
    length: u64,
}

impl<R: BlockReader + ?Sized> PartitionReader<R> {
    #[verifier::type_invariant]
    spec fn in_bounds(self) -> bool {
        &&& self.offset + self.length <= (*self.source).bytes().len()
        &&& (*self.source).bytes().len() <= u64::MAX
    }

    /// The source this view reads from.
    pub closed spec fn base(self) -> Seq<u8> {
        (*self.source).bytes()
    }

    /// The first byte of the view within its source.
    pub closed spec fn start(self) -> u64 {
        self.offset
    }

    pub fn new(source: std::sync::Arc<R>, offset: u64, length: u64) -> (r: Result<Self, Error>)
        ensures
            r is Ok ==> offset + length <= (*source).bytes().len(),
            (*source).reliable() ==> (r is Ok <==> offset + length <= (*source).bytes().len()),
            r matches Ok(p) ==> p.base() == (*source).bytes() && p.start() == offset
                && p.bytes() == (*source).bytes().subrange(offset as int, offset + length)
                && p.reliable() == (*source).reliable(),
            (*source).reliable() ==> (r matches Err(e) ==> e.kind() == ErrorCategory::InvalidImage),
            exists|measured: Result<u64, Error>|
                #[trigger] call_ensures(R::len, (&*source,), measured) && match measured {
                    Err(e) => r == Err::<Self, Error>(e),
                    Ok(n) => (r is Ok <==> offset + length <= n) && (r matches Err(e) ==> e.kind()
                        == ErrorCategory::InvalidImage),
                },
    {
        let measured = source.len();
        let ghost measured_result = measured;
        assert(call_ensures(R::len, (&*source,), measured_result));
        let source_len = match measured {
            Ok(n) => n,
            Err(e) => return Err(e),
        };
        let end = match offset.checked_add(length) {
            Some(end) => end,
            None => return Err(Error::new(ErrorCategory::InvalidImage, "partition range overflow")),
        };
        if end > source_len {
            return Err(Error::new(ErrorCategory::InvalidImage, "partition extends beyond source"));
        }
        Ok(PartitionReader { source, offset, length })
    }
}

impl<R: BlockReader + ?Sized> BlockReader for PartitionReader<R> {
    closed spec fn bytes(&self) -> Seq<u8> {
        (*self.source).bytes().subrange(self.offset as int, self.offset + self.length)
    }

    closed spec fn reliable(&self) -> bool {
        (*self.source).reliable()
    }

    fn len(&self) -> (r: Result<u64, Error>)
        ensures
            r is Ok,
    {
        proof {
            use_type_invariant(self);
        }
        Ok(self.length)
    }

    fn read_exact_at(&self, offset: u64, destination: &mut [u8]) -> (r: Result<(), Error>)
        ensures
            offset + old(destination)@.len() > self.bytes().len() ==> (r matches Err(e) && e.kind()
                == ErrorCategory::StorageAccess && final(destination)@ == old(destination)@),
    {
        proof {
            use_type_invariant(self);
        }
        validate_read_range(self.length, offset, destination.len())?;
        let absolute = match self.offset.checked_add(offset) {
            Some(a) => a,
            None => return Err(Error::new(ErrorCategory::StorageAccess, "partition read offset overflow")),
        };
        let r = self.source.read_exact_at(absolute, destination);
        proof {
            if r is Ok {
                assert(final(destination)@ =~= self.bytes().subrange(offset as int, offset + old(destination)@.len()));
            }
        }
        r
    }
}

} // verus!
