use linuxfs::block::{
    file_read_step, io_failure, validate_read_range, BlockGeometry, BlockReader, FileReadAction,
    FileReadEvent, MemoryReader, PartitionReader,
};
use linuxfs::error::{Error, ErrorCategory};
use std::sync::Arc;

#[test]
fn geometry_accepts_supported_sector_sizes() {
    let sector_512 = BlockGeometry::new(512).expect("512-byte sectors are supported");
    let sector_4096 = BlockGeometry::new(4096).expect("4096-byte sectors are supported");
    assert_eq!(sector_512.logical_sector_size(), 512);
    assert_eq!(sector_4096.logical_sector_size(), 4096);
}

#[test]
fn geometry_rejects_zero_non_power_of_two_and_excessive_values() {
    for value in [0, 513, 131_072] {
        assert_eq!(
            BlockGeometry::new(value).map_err(|error| error.category()),
            Err(ErrorCategory::InvalidImage)
        );
    }
}

#[test]
fn read_range_rejects_overflow_and_end_past_source() {
    assert!(validate_read_range(16, u64::MAX, 1).is_err());
    assert!(validate_read_range(16, 15, 2).is_err());
    assert!(validate_read_range(16, 16, 0).is_ok());
}

#[test]
fn error_preserves_category_and_message() {
    let error = Error::new(ErrorCategory::InvalidImage, "bad image");
    assert_eq!(error.category(), ErrorCategory::InvalidImage);
    assert_eq!(error.to_string(), "bad image");
}

#[test]
fn error_with_source_keeps_the_category() {
    let error = Error::with_source(ErrorCategory::StorageAccess, "cannot read", "device gone");
    assert_eq!(error.category(), ErrorCategory::StorageAccess);
    assert_eq!(error.to_string(), "cannot read");
}

#[test]
fn geometry_accepts_every_power_of_two_in_range_only() {
    for value in [512u32, 1024, 2048, 4096, 8192, 16384, 32768, 65536] {
        assert!(BlockGeometry::new(value).is_ok());
    }
    for value in [256u32, 768, 65535, 65537, 131_072] {
        assert!(BlockGeometry::new(value).is_err());
    }
    assert_eq!(BlockGeometry::raw_image_512().logical_sector_size(), 512);
}

#[test]
fn memory_reader_reads_exact_ranges() {
    let reader = MemoryReader::new(vec![10, 20, 30, 40]);
    assert_eq!(reader.len().expect("length"), 4);
    let mut first = [0u8; 2];
    reader.read_exact_at(0, &mut first).expect("first bytes read");
    assert_eq!(first, [10, 20]);
    let mut last = [0u8; 1];
    reader.read_exact_at(3, &mut last).expect("last byte reads");
    assert_eq!(last, [40]);
    let mut past = [0xA5u8; 2];
    let error = reader.read_exact_at(3, &mut past).expect_err("range is rejected");
    assert_eq!(error.category(), ErrorCategory::StorageAccess);
    assert_eq!(past, [0xA5; 2]);
    reader.read_exact_at(4, &mut []).expect("empty read at end succeeds");
}

#[test]
fn partition_reader_is_a_bounded_view() {
    let source = Arc::new(MemoryReader::new((0u8..32).collect()));
    let view = PartitionReader::new(Arc::clone(&source), 8, 8).expect("view inside source");
    assert_eq!(view.len().expect("length"), 8);
    let mut bytes = [0u8; 3];
    view.read_exact_at(5, &mut bytes).expect("read inside view");
    assert_eq!(bytes, [13, 14, 15]);
    assert_eq!(
        view.read_exact_at(6, &mut bytes).expect_err("read past view").category(),
        ErrorCategory::StorageAccess
    );
    assert_eq!(
        PartitionReader::new(Arc::clone(&source), 30, 4).err().map(|e| e.category()),
        Some(ErrorCategory::InvalidImage)
    );
    assert_eq!(
        PartitionReader::new(source, u64::MAX, 2).err().map(|e| e.category()),
        Some(ErrorCategory::InvalidImage)
    );
}

#[test]
fn file_reads_continue_until_the_range_is_read() {
    match file_read_step(100, 10, 0, FileReadEvent::Read(4)) {
        FileReadAction::ReadAt { at, done } => assert_eq!((at, done), (104, 4)),
        _ => panic!("a short read continues"),
    }
    match file_read_step(100, 10, 4, FileReadEvent::Interrupted) {
        FileReadAction::ReadAt { at, done } => assert_eq!((at, done), (104, 4)),
        _ => panic!("an interrupted read is retried"),
    }
    assert!(matches!(
        file_read_step(100, 10, 4, FileReadEvent::Read(6)),
        FileReadAction::Finished
    ));
    match file_read_step(100, 10, 4, FileReadEvent::Read(0)) {
        FileReadAction::Fail(error) => {
            assert_eq!(error.category(), ErrorCategory::StorageAccess);
            assert_eq!(error.to_string(), "image ended during read");
        }
        _ => panic!("a file that ends early fails"),
    }
    match file_read_step(0, 1, 0, FileReadEvent::Failed { permission_denied: true, detail: "denied".to_owned() }) {
        FileReadAction::Fail(error) => assert_eq!(error.category(), ErrorCategory::PermissionDenied),
        _ => panic!("a failed read fails"),
    }
    assert_eq!(io_failure(false, "cannot open image", "gone").category(), ErrorCategory::StorageAccess);
}
