use linuxfs::backends::{
    backend_for_magic, cursor_read_length, ext_error, ext_superblock_sizes, file_kind, kind_name,
    seek_target, squashfs_error, squashfs_info, unsupported_summary, validate_xfs_image_length,
    BackendKind, BackendOpeners, ExtFailure, IoFailure, ReadOnlyBackend, SeekOrigin,
    MAX_MATERIALIZED_FILE, MAX_MATERIALIZED_IMAGE,
};
use linuxfs::block::{validate_read_range, BlockReader, MemoryReader};
use linuxfs::cli::open_image_filesystem;
use linuxfs::xfs::{local_link_target, read_from_contents, xfs_error, xfs_file_read_check, xfs_info, xfs_metadata};
use linuxfs::error::{Error, ErrorCategory, Result};
use linuxfs::filesystem::{
    DirectoryEntry, FileKind, FilesystemInfo, FsPath, NodeMetadata, ReadOnlyFilesystem,
};
use std::sync::Arc;

struct SizedReader {
    bytes: Vec<u8>,
    reported_len: Option<u64>,
}

impl BlockReader for SizedReader {
    fn len(&self) -> Result<u64> {
        Ok(self.reported_len.unwrap_or(self.bytes.len() as u64))
    }

    fn read_exact_at(&self, offset: u64, destination: &mut [u8]) -> Result<()> {
        validate_read_range(self.bytes.len() as u64, offset, destination.len())?;
        let start = usize::try_from(offset)
            .map_err(|_| Error::new(ErrorCategory::StorageAccess, "offset overflow"))?;
        destination.copy_from_slice(&self.bytes[start..start + destination.len()]);
        Ok(())
    }
}

struct Unparsed(&'static str);

impl ReadOnlyFilesystem for Unparsed {
    fn info(&self) -> Result<FilesystemInfo> {
        Ok(FilesystemInfo {
            filesystem_type: self.0.to_owned(),
            label: None,
            uuid: None,
            block_size: None,
            total_size: None,
            free_size: None,
        })
    }

    fn lookup(&self, _path: &FsPath) -> Result<NodeMetadata> {
        Err(Error::new(ErrorCategory::Internal, "not parsed"))
    }

    fn read_dir(&self, _path: &FsPath) -> Result<Vec<DirectoryEntry>> {
        Err(Error::new(ErrorCategory::Internal, "not parsed"))
    }

    fn read_file_at(&self, _path: &FsPath, _offset: u64, _destination: &mut [u8]) -> Result<usize> {
        Err(Error::new(ErrorCategory::Internal, "not parsed"))
    }

    fn read_link(&self, _path: &FsPath) -> Result<FsPath> {
        Err(Error::new(ErrorCategory::Internal, "not parsed"))
    }
}

struct TruncatedParsers;

impl BackendOpeners for TruncatedParsers {
    type Ext = Unparsed;
    type Squashfs = Unparsed;
    type Xfs = Unparsed;

    fn open_ext<R: BlockReader + ?Sized + 'static>(&self, reader: Arc<R>) -> Result<Unparsed> {
        ext_superblock_sizes(&*reader)?;
        Ok(Unparsed("ext"))
    }

    fn open_squashfs<R: BlockReader + ?Sized + 'static>(&self, reader: Arc<R>) -> Result<Unparsed> {
        squashfs_info(&*reader)
            .map_err(|_| squashfs_error(IoFailure::UnexpectedEof, "failed to fill whole buffer"))?;
        Ok(Unparsed("squashfs"))
    }

    fn open_xfs(&self, image: Vec<u8>) -> Result<Unparsed> {
        assert!(image.len() as u64 <= MAX_MATERIALIZED_IMAGE);
        Ok(Unparsed("xfs"))
    }
}

#[test]
fn squashfs_signature_is_routed_to_squashfs_backend() {
    let reader = Arc::new(SizedReader {
        bytes: b"hsqs".to_vec(),
        reported_len: None,
    });
    let error = ReadOnlyBackend::open(reader, &TruncatedParsers)
        .err()
        .expect("truncated SquashFS must fail");
    assert_eq!(error.category(), ErrorCategory::FilesystemCorrupt);
}

#[test]
fn oversized_xfs_is_rejected_before_materialization() {
    let reader = Arc::new(SizedReader {
        bytes: b"XFSB".to_vec(),
        reported_len: Some(2 * 1024 * 1024 * 1024 + 1),
    });
    let error = ReadOnlyBackend::open(reader, &TruncatedParsers)
        .err()
        .expect("oversized XFS must fail closed");
    assert_eq!(error.category(), ErrorCategory::UnsupportedFeature);
}

#[test]
fn magic_bytes_choose_the_backend() {
    assert_eq!(backend_for_magic(b"hsqs"), BackendKind::Squashfs);
    assert_eq!(backend_for_magic(b"XFSB"), BackendKind::Xfs);
    assert_eq!(backend_for_magic(b"\0\0\0\0"), BackendKind::Ext);
    assert_eq!(kind_name(BackendKind::Squashfs), "SquashFS 4.0");
    let backend = ReadOnlyBackend::open(
        Arc::new(MemoryReader::new(b"XFSB small image".to_vec())),
        &TruncatedParsers,
    )
    .expect("small XFS opens");
    assert_eq!(backend.kind(), "XFS");
    assert_eq!(backend.info().expect("info").filesystem_type, "xfs");
    assert!(ReadOnlyBackend::open(Arc::new(MemoryReader::new(b"ab".to_vec())), &TruncatedParsers).is_err());
}

#[test]
fn xfs_size_limit_is_inclusive() {
    assert_eq!(validate_xfs_image_length(MAX_MATERIALIZED_IMAGE).ok(), Some(2_147_483_648));
    assert_eq!(
        validate_xfs_image_length(MAX_MATERIALIZED_IMAGE + 1).expect_err("too large").category(),
        ErrorCategory::UnsupportedFeature
    );
    assert_eq!(
        unsupported_summary().to_string(),
        "no supported Ext, SquashFS, or XFS filesystem found"
    );
}

#[test]
fn ext_superblock_sizes_follow_the_recorded_fields() {
    let mut image = vec![0u8; 4096];
    let superblock = 1024;
    image[superblock + 0x18..superblock + 0x1c].copy_from_slice(&2u32.to_le_bytes());
    image[superblock + 0x04..superblock + 0x08].copy_from_slice(&1000u32.to_le_bytes());
    image[superblock + 0x0c..superblock + 0x10].copy_from_slice(&250u32.to_le_bytes());
    let sizes = ext_superblock_sizes(&MemoryReader::new(image.clone())).expect("sizes");
    assert_eq!(sizes, (Some(4096), Some(4_096_000), Some(1_024_000)));
    image[superblock + 0x18..superblock + 0x1c].copy_from_slice(&22u32.to_le_bytes());
    assert_eq!(
        ext_superblock_sizes(&MemoryReader::new(image.clone())).expect("sizes"),
        (None, None, None)
    );
    image[superblock + 0x18..superblock + 0x1c].copy_from_slice(&60u32.to_le_bytes());
    assert_eq!(
        ext_superblock_sizes(&MemoryReader::new(image)).expect("sizes"),
        (Some(0), Some(0), Some(0))
    );
    assert_eq!(
        ext_superblock_sizes(&MemoryReader::new(vec![0; 1024])).expect_err("short").category(),
        ErrorCategory::StorageAccess
    );
}

#[test]
fn rejects_truncated_source_as_structured_error() {
    let reader = Arc::new(SizedReader {
        bytes: vec![0; 1024],
        reported_len: None,
    });
    let result = ReadOnlyBackend::open(reader, &TruncatedParsers);
    assert!(result.is_err());
    assert!(matches!(
        result.err().map(|error| error.category()),
        Some(ErrorCategory::StorageAccess | ErrorCategory::FilesystemCorrupt)
    ));
}

#[test]
fn parser_failures_map_to_categories() {
    assert_eq!(ext_error(ExtFailure::Io, "x").category(), ErrorCategory::StorageAccess);
    assert_eq!(ext_error(ExtFailure::Incompatible, "x").category(), ErrorCategory::UnsupportedFeature);
    assert_eq!(ext_error(ExtFailure::Encrypted, "x").category(), ErrorCategory::UnsupportedFilesystem);
    assert_eq!(
        ext_error(ExtFailure::Corrupt, "bad inode").to_string(),
        "Ext filesystem operation failed: bad inode"
    );
    assert_eq!(squashfs_error(IoFailure::NotFound, "x").category(), ErrorCategory::InvalidImage);
    assert_eq!(squashfs_error(IoFailure::Unsupported, "x").category(), ErrorCategory::UnsupportedFeature);
    assert_eq!(file_kind(false, true, false), FileKind::Symlink);
    assert_eq!(file_kind(false, false, false), FileKind::Other);
}

#[test]
fn squashfs_details_come_from_the_superblock() {
    let mut header = vec![0u8; 96];
    header[0..4].copy_from_slice(b"hsqs");
    header[12..16].copy_from_slice(&131072u32.to_le_bytes());
    header[40..48].copy_from_slice(&9_000_000u64.to_le_bytes());
    let info = squashfs_info(&MemoryReader::new(header)).expect("details");
    assert_eq!(info.filesystem_type, "SquashFS 4.0");
    assert_eq!(info.block_size, Some(131072));
    assert_eq!(info.total_size, Some(9_000_000));
    assert_eq!(info.free_size, Some(0));
}

#[test]
fn cursor_reads_and_seeks_stay_inside_the_source() {
    assert_eq!(cursor_read_length(100, 90, 64), 10);
    assert_eq!(cursor_read_length(100, 120, 64), 0);
    assert_eq!(cursor_read_length(100, 0, 64), 64);
    assert_eq!(seek_target(10, 100, SeekOrigin::Current(-10)), Some(0));
    assert_eq!(seek_target(10, 100, SeekOrigin::Current(-11)), None);
    assert_eq!(seek_target(10, 100, SeekOrigin::End(0)), Some(100));
    assert_eq!(seek_target(10, 100, SeekOrigin::End(1)), None);
    assert_eq!(seek_target(10, 100, SeekOrigin::Start(55)), Some(55));
}

struct OneImage(Vec<u8>);

impl linuxfs::providers::ImageFiles for OneImage {
    type Reader = MemoryReader;

    fn open(&self, _path: &str) -> Result<MemoryReader> {
        Ok(MemoryReader::new(self.0.clone()))
    }
}

struct Collect(Vec<u8>);

impl linuxfs::cli::OutputSink for Collect {
    fn write_all(&mut self, bytes: &[u8]) -> Result<()> {
        self.0.extend_from_slice(bytes);
        Ok(())
    }
}

#[test]
fn inspect_prints_the_known_details_and_the_access_mode() {
    let mut image = vec![0u8; 4096];
    image[0..4].copy_from_slice(b"XFSB");
    let mut output = Collect(Vec::new());
    linuxfs::cli::run(
        linuxfs::cli::Command::Inspect {
            image: "disk.img".into(),
        },
        &OneImage(image),
        &TruncatedParsers,
        &mut output,
    )
    .expect("inspect");
    assert_eq!(
        String::from_utf8(output.0).expect("text"),
        "source=disk.img\nfilesystem=xfs\naccess=read-only\n"
    );
    let info = FilesystemInfo {
        filesystem_type: "ext2/ext3/ext4".to_owned(),
        label: Some("root".to_owned()),
        uuid: Some([0x01; 16]),
        block_size: Some(4096),
        total_size: Some(8192),
        free_size: None,
    };
    assert_eq!(
        linuxfs::cli::inspect_report("a.img", &info).concat(),
        "source=a.img\nfilesystem=ext2/ext3/ext4\nlabel=root\nuuid=01010101010101010101010101010101\nblock_size=4096\ntotal_size=8192\naccess=read-only\n"
    );
}

fn mbr_image_with_partitions(entries: &[(u32, u32, &[u8])]) -> Vec<u8> {
    let mut bytes = vec![0u8; 16 * 512];
    bytes[510..512].copy_from_slice(&[0x55, 0xAA]);
    for (slot, (start, count, magic)) in entries.iter().enumerate() {
        let base = 446 + slot * 16;
        bytes[base + 4] = 0x83;
        bytes[base + 8..base + 12].copy_from_slice(&start.to_le_bytes());
        bytes[base + 12..base + 16].copy_from_slice(&count.to_le_bytes());
        let at = *start as usize * 512;
        bytes[at..at + magic.len()].copy_from_slice(magic);
    }
    bytes
}

#[test]
fn image_filesystem_comes_from_the_first_partition_that_opens() {
    let bytes = mbr_image_with_partitions(&[(2, 2, b"\0\0\0\0"), (8, 4, b"XFSB"), (12, 2, b"hsqs")]);
    let backend = open_image_filesystem(Arc::new(MemoryReader::new(bytes)), &TruncatedParsers)
        .expect("the XFS partition opens");
    assert_eq!(backend.kind(), "XFS");

    let direct = open_image_filesystem(
        Arc::new(MemoryReader::new(b"XFSB not partitioned".to_vec())),
        &TruncatedParsers,
    )
    .expect("a direct XFS image opens");
    assert_eq!(direct.kind(), "XFS");

    let failing = mbr_image_with_partitions(&[(2, 2, b"\0\0\0\0")]);
    let error = open_image_filesystem(Arc::new(MemoryReader::new(failing)), &TruncatedParsers)
        .err()
        .expect("the only partition is too short for an Ext superblock");
    assert_eq!(error.category(), ErrorCategory::StorageAccess);

    let mut broken = vec![0u8; 16 * 512];
    broken[510..512].copy_from_slice(&[0x55, 0xAA]);
    let error = open_image_filesystem(Arc::new(MemoryReader::new(broken)), &TruncatedParsers)
        .err()
        .expect("a table without partitions fails closed");
    assert_eq!(error.category(), ErrorCategory::PartitionTable);
}

#[test]
fn xfs_geometry_gives_the_total_size_where_it_fits() {
    let info = xfs_info(1000, 4, 4096);
    assert_eq!(info.filesystem_type, "XFS");
    assert_eq!(info.block_size, Some(4096));
    assert_eq!(info.total_size, Some(16_384_000));
    assert_eq!(info.free_size, None);
    assert_eq!(xfs_info(u32::MAX, u32::MAX, 4096).total_size, None);
}

#[test]
fn xfs_reads_only_regular_files_up_to_the_memory_limit() {
    let metadata = xfs_metadata(FileKind::Regular, 12, 0o100644);
    assert_eq!(metadata.permissions, 0o644);
    assert_eq!((metadata.uid, metadata.gid), (0, 0));
    assert!(xfs_file_read_check(FileKind::Regular, MAX_MATERIALIZED_FILE).is_ok());
    assert_eq!(
        xfs_file_read_check(FileKind::Regular, MAX_MATERIALIZED_FILE + 1)
            .expect_err("too large")
            .category(),
        ErrorCategory::UnsupportedFeature
    );
    assert_eq!(
        xfs_file_read_check(FileKind::Directory, 0).expect_err("not a file").category(),
        ErrorCategory::InvalidImage
    );
    let mut destination = [9u8; 4];
    assert_eq!(read_from_contents(b"abcdef", 4, &mut destination), 2);
    assert_eq!(destination, [b'e', b'f', 9, 9]);
    assert_eq!(read_from_contents(b"abcdef", 6, &mut destination), 0);
    assert_eq!(local_link_target(b"target-and-more", 6), b"target".to_vec());
    assert_eq!(local_link_target(b"short", 64), b"short".to_vec());
    assert_eq!(xfs_error("bad magic").to_string(), "XFS operation failed: bad magic");
}
