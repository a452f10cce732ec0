use linuxfs::app::{MountService, SourceId, SourceKind, SourceStatus, SourceViewModel};
use linuxfs::error::{Error, ErrorCategory, Result};
use linuxfs::filesystem::{FileKind, FilesystemInfo, NodeMetadata};
use linuxfs::providers::{MountHostFactory, WindowsImageMountService};
use linuxfs::winfsp::{
    file_info_fields, volume_label, win32_error_code, windows_path, MountHost, NativeMountHost,
    VolumeHost, ERROR_ACCESS_DENIED, ERROR_FILE_NOT_FOUND, ERROR_INVALID_PARAMETER,
    FILE_ATTRIBUTE_DIRECTORY,
};

struct Host {
    fail_unmount: bool,
}

impl MountHost for Host {
    fn mount(&mut self) -> Result<()> {
        Ok(())
    }

    fn unmount(&mut self) -> Result<()> {
        if self.fail_unmount {
            Err(Error::new(ErrorCategory::WinFspFailure, "busy"))
        } else {
            Ok(())
        }
    }
}

struct Factory {
    fail_unmount: bool,
}

impl MountHostFactory for Factory {
    type Host = Host;

    fn create(&self, _source: &SourceViewModel, _mount_point: &str) -> Result<Host> {
        Ok(Host {
            fail_unmount: self.fail_unmount,
        })
    }

    fn open_explorer(&self, _mount_point: &str) -> Result<()> {
        Ok(())
    }
}

fn source(id: u64) -> SourceViewModel {
    SourceViewModel {
        id: SourceId(id),
        kind: SourceKind::Image,
        display_name: "disk.img".to_owned(),
        source_description: "disk.img".to_owned(),
        source_path: "disk.img".to_owned(),
        partition_range: None,
        physical_disk_index: None,
        filesystem_type: Some("ext4".to_owned()),
        label: None,
        uuid: None,
        size_bytes: Some(4096),
        status: SourceStatus::Compatible,
        mount_point: None,
        read_only: true,
    }
}

#[test]
fn one_source_at_a_time_holds_the_drive_letter() {
    let mut service = WindowsImageMountService::new("L:".to_owned(), Factory { fail_unmount: false });
    assert_eq!(service.mount(&source(1)).expect("mount"), "L:");
    assert_eq!(
        service.mount(&source(1)).expect_err("twice").category(),
        ErrorCategory::WinFspFailure
    );
    let busy = service.mount(&source(2)).expect_err("drive letter in use");
    assert_eq!(busy.category(), ErrorCategory::MountPointUnavailable);
    assert_eq!(busy.to_string(), "mount point L: is already in use by another source");
    service.unmount(&source(1)).expect("unmount");
    assert_eq!(
        service.unmount(&source(1)).expect_err("not owned").category(),
        ErrorCategory::WinFspFailure
    );
    service.mount(&source(2)).expect("free again");
    assert!(service.unmount_all().is_empty());
}

#[test]
fn a_mount_that_fails_to_unmount_is_kept() {
    let mut service = WindowsImageMountService::new("L:".to_owned(), Factory { fail_unmount: true });
    service.mount(&source(1)).expect("mount");
    assert!(service.unmount(&source(1)).is_err());
    assert_eq!(
        service.mount(&source(2)).expect_err("still held").category(),
        ErrorCategory::MountPointUnavailable
    );
    assert_eq!(service.unmount_all().len(), 1);
}

#[test]
fn mounts_need_a_drive_letter() {
    let mut service = WindowsImageMountService::new("C:\\mnt".to_owned(), Factory { fail_unmount: false });
    assert_eq!(
        service.mount(&source(1)).expect_err("bad point").category(),
        ErrorCategory::MountPointUnavailable
    );
}

#[derive(Default)]
struct Volume {
    fail_mount: bool,
    stops: usize,
}

impl VolumeHost for Volume {
    fn start(&mut self) -> Result<()> {
        Ok(())
    }

    fn mount(&mut self, _mount_point: &str) -> Result<()> {
        if self.fail_mount {
            Err(Error::new(ErrorCategory::WinFspFailure, "no drive"))
        } else {
            Ok(())
        }
    }

    fn unmount(&mut self) {}

    fn stop(&mut self) {
        self.stops += 1;
    }
}

#[test]
fn native_host_starts_once_and_stops_after_a_failed_mount() {
    let mut host = NativeMountHost::new(Volume::default(), "L:".to_owned());
    MountHost::mount(&mut host).expect("mount");
    assert!(MountHost::mount(&mut host).is_err());
    MountHost::unmount(&mut host).expect("unmount");
    assert!(MountHost::unmount(&mut host).is_err());
    let mut failing = NativeMountHost::new(
        Volume {
            fail_mount: true,
            stops: 0,
        },
        "L:".to_owned(),
    );
    let error = MountHost::mount(&mut failing).expect_err("mount fails");
    assert_eq!(error.to_string(), "WinFsp mount operation failed");
    assert!(MountHost::unmount(&mut failing).is_err());
}

#[test]
fn windows_names_become_rooted_volume_paths() {
    assert_eq!(windows_path("\\dir\\file.txt").expect("path").as_str(), "/dir/file.txt");
    assert_eq!(windows_path("dir\\.\\x").expect("path").as_str(), "/dir/x");
    assert_eq!(windows_path("").expect("root").as_str(), "/");
    assert_eq!(
        windows_path("\\..\\x").expect_err("escape").category(),
        ErrorCategory::InvalidImage
    );
}

#[test]
fn failures_map_to_win32_codes() {
    assert_eq!(win32_error_code(&Error::new(ErrorCategory::PermissionDenied, "x")), ERROR_ACCESS_DENIED);
    assert_eq!(win32_error_code(&Error::new(ErrorCategory::StorageAccess, "x")), ERROR_FILE_NOT_FOUND);
    assert_eq!(win32_error_code(&Error::new(ErrorCategory::Internal, "x")), ERROR_INVALID_PARAMETER);
    let info = FilesystemInfo {
        filesystem_type: "ext2/ext3/ext4".to_owned(),
        label: None,
        uuid: None,
        block_size: None,
        total_size: None,
        free_size: None,
    };
    assert_eq!(volume_label(&info), "ext2/ext3/ext4");
    let directory = NodeMetadata {
        kind: FileKind::Directory,
        size: 4096,
        permissions: 0o755,
        uid: 0,
        gid: 0,
    };
    assert_eq!(file_info_fields(directory), (FILE_ATTRIBUTE_DIRECTORY, 4096, 4096));
}
