use linuxfs::app::{
    AppController, AppModel, MountService, SourceId, SourceKind, SourceProvider, SourceStatus,
    SourceViewModel,
};
use linuxfs::block::{BlockReader, MemoryReader, PartitionReader};
use linuxfs::error::{ErrorCategory, Result};
use linuxfs::filesystem::FilesystemInfo;
use linuxfs::providers::{
    display_name_of, physical_source, physical_sources, source_kind_is_mountable,
    validate_mount_point, ImageFiles, ImageSourceProvider,
};
use linuxfs::partition::{Partition, PartitionType};
use linuxfs::windows::{FilesystemProbe, PhysicalPartitionInfo, ProbedFilesystem};
use std::sync::Arc;

fn compatible_source() -> SourceViewModel {
    SourceViewModel {
        id: SourceId(1),
        kind: SourceKind::Image,
        display_name: "fixture.img".to_owned(),
        source_description: "Raw image".to_owned(),
        source_path: "fixture.img".to_owned(),
        partition_range: None,
        physical_disk_index: None,
        filesystem_type: Some("ext4".to_owned()),
        label: Some("fixture".to_owned()),
        uuid: None,
        size_bytes: Some(32 * 1024 * 1024),
        status: SourceStatus::Compatible,
        mount_point: None,
        read_only: true,
    }
}

#[test]
fn source_commands_reflect_read_only_mount_state() {
    let mut source = compatible_source();
    assert!(source.can_mount());
    assert!(!source.can_unmount());

    source.status = SourceStatus::Mounted;
    source.mount_point = Some("L:".to_owned());
    assert!(!source.can_mount());
    assert!(source.can_unmount());
}

#[test]
fn a_source_can_never_be_mountable_when_read_only_is_false() {
    let mut source = compatible_source();
    source.read_only = false;
    assert!(!source.can_mount());
}

#[test]
fn physical_sources_retain_the_backing_disk_identity() {
    let source = SourceViewModel {
        physical_disk_index: Some(3),
        ..compatible_source()
    };
    assert_eq!(source.physical_disk_index, Some(3));
}

#[test]
fn model_replaces_sources_and_tracks_busy_message() {
    let mut model = AppModel::default();
    model.replace_sources(vec![compatible_source()]);
    model.set_busy(true);
    model.set_message(Some("Scanning".to_owned()));
    assert_eq!(model.sources().len(), 1);
    assert!(model.busy());
    assert_eq!(model.message(), Some("Scanning"));
}

struct FakeProvider;

impl SourceProvider for FakeProvider {
    fn refresh(&mut self) -> Result<Vec<SourceViewModel>> {
        Ok(vec![test_source()])
    }

    fn open_image(&mut self, path: &str) -> Result<SourceViewModel> {
        let mut source = test_source();
        source.display_name = path.to_owned();
        Ok(source)
    }
}

struct FakeMount;

impl MountService for FakeMount {
    fn mount(&mut self, _source: &SourceViewModel) -> Result<String> {
        Ok("L:".to_owned())
    }

    fn unmount(&mut self, _source: &SourceViewModel) -> Result<()> {
        Ok(())
    }

    fn open_in_explorer(&mut self, _mount_point: &str) -> Result<()> {
        Ok(())
    }
}

fn test_source() -> SourceViewModel {
    SourceViewModel {
        id: SourceId(7),
        kind: SourceKind::Image,
        display_name: "fixture.img".to_owned(),
        source_description: "Raw image".to_owned(),
        source_path: "fixture.img".to_owned(),
        partition_range: None,
        physical_disk_index: None,
        filesystem_type: Some("ext4".to_owned()),
        label: None,
        uuid: None,
        size_bytes: Some(1024),
        status: SourceStatus::Compatible,
        mount_point: None,
        read_only: true,
    }
}

#[test]
fn controller_routes_refresh_mount_and_unmount() {
    let mut controller = AppController::new(FakeProvider, FakeMount);
    controller.refresh().expect("refresh");
    controller.mount(SourceId(7)).expect("mount");
    assert!(controller.model().sources()[0].can_unmount());
    controller.unmount(SourceId(7)).expect("unmount");
    assert!(controller.model().sources()[0].can_mount());
}

#[test]
fn controller_rejects_mounting_incompatible_source() {
    let mut controller = AppController::new(FakeProvider, FakeMount);
    controller
        .model_mut()
        .replace_sources(vec![SourceViewModel {
            status: SourceStatus::Incompatible,
            ..test_source()
        }]);
    let error = controller
        .mount(SourceId(7))
        .expect_err("incompatible source");
    assert_eq!(error.category(), ErrorCategory::Internal);
}

#[test]
fn controller_mount_then_unmount_restores_the_row_and_clears_the_message() {
    let mut controller = AppController::new(FakeProvider, FakeMount);
    controller.refresh().expect("refresh");
    let before = controller.model().sources()[0].clone();
    controller.mount(SourceId(7)).expect("mount");
    assert_eq!(controller.model().sources()[0].mount_point.as_deref(), Some("L:"));
    controller.open_in_explorer(SourceId(7)).expect("explorer");
    controller.unmount(SourceId(7)).expect("unmount");
    assert_eq!(controller.model().sources()[0], before);
    assert!(!controller.model().busy());
    assert_eq!(controller.model().message(), None);
    assert_eq!(
        controller.unmount(SourceId(7)).expect_err("not mounted").category(),
        ErrorCategory::Internal
    );
    assert_eq!(
        controller.mount(SourceId(99)).expect_err("missing").category(),
        ErrorCategory::Internal
    );
}

struct NoFiles;

impl ImageFiles for NoFiles {
    type Reader = MemoryReader;

    fn open(&self, _path: &str) -> Result<MemoryReader> {
        Ok(MemoryReader::new(vec![0; 4096]))
    }
}

struct AcceptAll;

impl FilesystemProbe for AcceptAll {
    fn probe<R: BlockReader + ?Sized + 'static>(
        &self,
        source: Arc<PartitionReader<R>>,
    ) -> Result<ProbedFilesystem> {
        let size = source.len()?;
        Ok(ProbedFilesystem {
            kind: "test".to_owned(),
            info: Ok(FilesystemInfo {
                filesystem_type: "ext4".to_owned(),
                label: Some("whole".to_owned()),
                uuid: Some([0xab; 16]),
                block_size: Some(4096),
                total_size: Some(size),
                free_size: None,
            }),
        })
    }
}

#[test]
fn partition_source_retains_backing_image_location() {
    let mut provider = ImageSourceProvider::new(NoFiles, AcceptAll);
    let source = provider.source_from_info(
        "disk.raw",
        4096,
        "disk.raw (partition 1)".to_owned(),
        Some((1024, 2048)),
        FilesystemInfo {
            filesystem_type: "ext4".to_owned(),
            label: None,
            uuid: None,
            block_size: None,
            total_size: None,
            free_size: None,
        },
    );

    assert_eq!(source.source_path, "disk.raw");
    assert_eq!(source.partition_range, Some((1024, 2048)));
    assert!(source_kind_is_mountable(SourceKind::Partition));
}

#[test]
fn direct_image_opens_as_one_image_row_with_increasing_ids() {
    let mut provider = ImageSourceProvider::new(NoFiles, AcceptAll);
    let first = provider.open_image(r"C:\images\disk.img").expect("direct image");
    assert_eq!(first.id, SourceId(1));
    assert_eq!(first.kind, SourceKind::Image);
    assert_eq!(first.display_name, "disk.img");
    assert_eq!(first.size_bytes, Some(4096));
    assert_eq!(first.uuid.as_deref(), Some("abababababababababababababababab"));
    let second = provider.open_image("relative.img").expect("direct image");
    assert_eq!(second.id, SourceId(2));
    assert!(provider.refresh().expect("refresh").is_empty());
}

#[test]
fn display_names_are_the_last_path_part() {
    assert_eq!(display_name_of("a/b/c.img"), "c.img");
    assert_eq!(display_name_of(r"C:\x\y.raw\"), "y.raw");
    assert_eq!(display_name_of("plain"), "plain");
    assert_eq!(display_name_of("dir/.."), "dir/..");
    assert_eq!(display_name_of(""), "");
}

fn physical(disk_index: u32, number: u32, path: &str) -> PhysicalPartitionInfo {
    PhysicalPartitionInfo {
        disk_index,
        source_path: path.to_owned(),
        partition: Partition {
            number,
            byte_offset: 1_048_576,
            byte_length: 8_388_608,
            type_identifier: PartitionType::Mbr(0x83),
            unique_identifier: None,
        },
        filesystem: FilesystemInfo {
            filesystem_type: "ext2/ext3/ext4".to_owned(),
            label: None,
            uuid: None,
            block_size: None,
            total_size: None,
            free_size: None,
        },
    }
}

#[test]
fn physical_rows_name_the_drive_and_pack_the_id() {
    let row = physical_source(physical(2, 5, r"\\.\PhysicalDrive2"));
    assert_eq!(row.id, SourceId((1 << 63) | (2 << 32) | 5));
    assert_eq!(row.display_name, "PhysicalDrive2 partition 5");
    assert_eq!(row.physical_disk_index, Some(2));
    assert_eq!(row.partition_range, Some((1_048_576, 8_388_608)));
    assert_eq!(row.kind, SourceKind::PhysicalDisk);
    let volume = physical_source(physical(u32::MAX, 76, r"\\.\L:"));
    assert_eq!(volume.display_name, r"Windows volume \\.\L:");
    assert_eq!(volume.physical_disk_index, None);
    assert_eq!(
        physical_sources(Vec::new()).expect_err("nothing found").category(),
        ErrorCategory::UnsupportedFilesystem
    );
}

#[test]
fn mount_points_must_be_drive_letters() {
    assert!(validate_mount_point("L:").is_ok());
    assert!(validate_mount_point("  z: ").is_ok());
    let error = validate_mount_point("C:\\mnt").expect_err("not a drive letter");
    assert_eq!(error.category(), ErrorCategory::MountPointUnavailable);
    assert_eq!(
        error.to_string(),
        "invalid mount point \"C:\\\\mnt\"; expected a drive letter such as L:"
    );
    assert!(validate_mount_point("1:").is_err());
    assert!(validate_mount_point("é:").is_err());
}

#[test]
fn partitioned_image_opens_as_its_first_recognized_partition() {
    let mut bytes = vec![0u8; 16 * 512];
    bytes[510..512].copy_from_slice(&[0x55, 0xAA]);
    let entry = 446;
    bytes[entry + 4] = 0x83;
    bytes[entry + 8..entry + 12].copy_from_slice(&2u32.to_le_bytes());
    bytes[entry + 12..entry + 16].copy_from_slice(&4u32.to_le_bytes());
    let mut provider = ImageSourceProvider::new(NoFiles, AcceptAll);
    let row = provider
        .open_image_source("disk.raw", Arc::new(MemoryReader::new(bytes)))
        .expect("the partition is recognized");
    assert_eq!(row.id, SourceId(1));
    assert_eq!(row.kind, SourceKind::Partition);
    assert_eq!(row.source_description, "disk.raw (partition 1)");
    assert_eq!(row.partition_range, Some((1024, 2048)));
    assert_eq!(row.size_bytes, Some(2048));

    let mut empty_table = vec![0u8; 16 * 512];
    empty_table[510..512].copy_from_slice(&[0x55, 0xAA]);
    let error = provider
        .open_image_source("broken.raw", Arc::new(MemoryReader::new(empty_table)))
        .expect_err("a table without partitions fails closed");
    assert_eq!(error.category(), ErrorCategory::PartitionTable);
    assert_eq!(provider.open_image("next.img").expect("direct image").id, SourceId(2));
}
