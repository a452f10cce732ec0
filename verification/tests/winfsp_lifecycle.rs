use linuxfs::error::{Error, ErrorCategory, Result};
use linuxfs::filesystem::{DirectoryEntry, FileKind, FilesystemInfo, FsPath, NodeMetadata, ReadOnlyFilesystem};
use linuxfs::winfsp::{
    check_winfsp, MountHost, MountManager, MountStatus, OperationDecision, ReadOnlyContext,
    ReadOnlyDispatcher, WinFspStatus, WinFspUnavailableReason, WinOperation,
    runtime_dll_name, runtime_dll_path, winfsp_runtime_path, TargetArch,
};

#[test]
fn diagnostic_is_structured_and_read_only_on_this_platform() {
    let status = check_winfsp();
    assert!(!status.is_available());
    assert_eq!(
        status,
        WinFspStatus::Unavailable {
            reason: WinFspUnavailableReason::UnsupportedPlatform
        }
    );
}

#[test]
fn availability_status_reports_only_available_as_available() {
    assert!(WinFspStatus::Available.is_available());
    assert!(
        !WinFspStatus::Unavailable {
            reason: WinFspUnavailableReason::RuntimeUnavailable
        }
        .is_available()
    );
}

#[test]
fn read_operations_are_allowed() {
    for operation in [
        WinOperation::QueryVolumeInformation,
        WinOperation::Open,
        WinOperation::QueryFileInformation,
        WinOperation::ReadDirectory,
        WinOperation::Read,
        WinOperation::ReadLink,
        WinOperation::Cleanup,
        WinOperation::Close,
    ] {
        assert_eq!(operation.decision(), OperationDecision::AllowRead);
        assert!(ReadOnlyDispatcher::<FakeFilesystem>::authorize(operation).is_ok());
    }
}

#[test]
fn every_mutating_operation_is_denied() {
    for operation in [
        WinOperation::Create,
        WinOperation::Write,
        WinOperation::SetFileSize,
        WinOperation::CanDelete,
        WinOperation::Delete,
        WinOperation::Rename,
        WinOperation::SetBasicInformation,
        WinOperation::SetSecurity,
        WinOperation::Flush,
    ] {
        let error = ReadOnlyDispatcher::<FakeFilesystem>::authorize(operation)
            .expect_err("mutating operation must be denied");
        assert_eq!(error.category(), ErrorCategory::PermissionDenied);
    }
}

#[test]
fn dispatcher_forwards_only_read_operations() {
    let dispatcher = ReadOnlyDispatcher::new(FakeFilesystem);
    let path = FsPath::root();
    assert_eq!(dispatcher.info().expect("info").filesystem_type, "fake");
    assert_eq!(
        dispatcher.lookup(&path).expect("lookup").kind,
        FileKind::Directory
    );
    assert_eq!(dispatcher.read_dir(&path).expect("directory").len(), 1);
    let mut bytes = [0; 4];
    assert_eq!(
        dispatcher.read_file_at(&path, 0, &mut bytes).expect("read"),
        4
    );
    assert_eq!(&bytes, b"test");
    assert_eq!(
        dispatcher.read_link(&path).expect("link").as_str(),
        "/target"
    );
}

struct FakeFilesystem;

impl ReadOnlyFilesystem for FakeFilesystem {
    fn info(&self) -> Result<FilesystemInfo> {
        Ok(FilesystemInfo {
            filesystem_type: "fake".to_owned(),
            label: None,
            uuid: None,
            block_size: None,
            total_size: None,
            free_size: None,
        })
    }

    fn lookup(&self, _path: &FsPath) -> Result<NodeMetadata> {
        Ok(NodeMetadata {
            kind: FileKind::Directory,
            size: 0,
            permissions: 0o755,
            uid: 0,
            gid: 0,
        })
    }

    fn read_dir(&self, _path: &FsPath) -> Result<Vec<DirectoryEntry>> {
        Ok(vec![DirectoryEntry {
            name: "entry".to_owned(),
            metadata: NodeMetadata {
                kind: FileKind::Regular,
                size: 4,
                permissions: 0o644,
                uid: 0,
                gid: 0,
            },
        }])
    }

    fn read_file_at(&self, _path: &FsPath, _offset: u64, destination: &mut [u8]) -> Result<usize> {
        destination.copy_from_slice(b"test");
        Ok(destination.len())
    }

    fn read_link(&self, _path: &FsPath) -> Result<FsPath> {
        FsPath::parse("/target")
    }
}

struct FakeHost {
    fail_mount: bool,
    fail_unmount: bool,
    unmount_calls: usize,
}

impl MountHost for FakeHost {
    fn mount(&mut self) -> Result<()> {
        if self.fail_mount {
            Err(Error::new(ErrorCategory::WinFspFailure, "fake mount failure"))
        } else {
            Ok(())
        }
    }

    fn unmount(&mut self) -> Result<()> {
        self.unmount_calls += 1;
        if self.fail_unmount {
            Err(Error::new(ErrorCategory::WinFspFailure, "fake unmount failure"))
        } else {
            Ok(())
        }
    }
}

#[test]
fn lifecycle_requires_mount_before_unmount() {
    let mut manager = MountManager::new(FakeHost {
        fail_mount: false,
        fail_unmount: false,
        unmount_calls: 0,
    });
    assert_eq!(manager.status(), MountStatus::Unmounted);
    assert!(manager.unmount().is_err());
    manager.mount().expect("mount");
    assert_eq!(manager.status(), MountStatus::Mounted);
    manager.unmount().expect("unmount");
    assert_eq!(manager.status(), MountStatus::Unmounted);
}

#[test]
fn failed_host_operation_enters_failed_state() {
    let mut manager = MountManager::new(FakeHost {
        fail_mount: true,
        fail_unmount: false,
        unmount_calls: 0,
    });
    assert_eq!(
        manager.mount().expect_err("failure").category(),
        ErrorCategory::WinFspFailure
    );
    assert_eq!(manager.status(), MountStatus::Failed);
}

#[test]
fn shutdown_unmounts_owned_mount_and_is_idempotent() {
    let mut manager = MountManager::new(FakeHost {
        fail_mount: false,
        fail_unmount: false,
        unmount_calls: 0,
    });
    manager.mount().expect("mount");

    manager.shutdown().expect("shutdown");
    assert_eq!(manager.status(), MountStatus::Unmounted);
    assert_eq!(manager.host().unmount_calls, 1);

    manager.shutdown().expect("second shutdown");
    assert_eq!(manager.host().unmount_calls, 1);
}

#[test]
fn shutdown_reports_cleanup_failure_and_preserves_mounted_state() {
    let mut manager = MountManager::new(FakeHost {
        fail_mount: false,
        fail_unmount: true,
        unmount_calls: 0,
    });
    manager.mount().expect("mount");

    let error = manager
        .shutdown()
        .expect_err("shutdown must report failure");
    assert_eq!(error.category(), ErrorCategory::WinFspFailure);
    assert_eq!(manager.status(), MountStatus::Mounted);
    assert_eq!(manager.host().unmount_calls, 1);
}

#[test]
fn failed_unmount_retains_mounted_state_for_retry() {
    let mut manager = MountManager::new(FakeHost {
        fail_mount: false,
        fail_unmount: true,
        unmount_calls: 0,
    });
    manager.mount().expect("mount");

    assert!(manager.unmount().is_err());
    assert_eq!(manager.status(), MountStatus::Mounted);
}

#[test]
fn failed_manager_refuses_further_requests() {
    let mut manager = MountManager::new(FakeHost {
        fail_mount: true,
        fail_unmount: false,
        unmount_calls: 0,
    });
    assert!(manager.mount().is_err());
    assert_eq!(
        manager.mount().expect_err("failed").category(),
        ErrorCategory::PermissionDenied
    );
    assert_eq!(
        manager.shutdown().expect_err("failed").category(),
        ErrorCategory::PermissionDenied
    );
    assert_eq!(manager.host().unmount_calls, 0);
    assert_eq!(manager.status(), MountStatus::Failed);
}

struct ListingFilesystem;

impl ReadOnlyFilesystem for ListingFilesystem {
    fn info(&self) -> Result<FilesystemInfo> {
        FakeFilesystem.info()
    }

    fn lookup(&self, _path: &FsPath) -> Result<NodeMetadata> {
        FakeFilesystem.lookup(_path)
    }

    fn read_dir(&self, _path: &FsPath) -> Result<Vec<DirectoryEntry>> {
        Ok(vec![DirectoryEntry {
            name: "hello.txt".to_owned(),
            metadata: NodeMetadata {
                kind: FileKind::Regular,
                size: 5,
                permissions: 0o644,
                uid: 1000,
                gid: 1000,
            },
        }])
    }

    fn read_file_at(&self, _path: &FsPath, _offset: u64, _destination: &mut [u8]) -> Result<usize> {
        Ok(0)
    }

    fn read_link(&self, _path: &FsPath) -> Result<FsPath> {
        Err(Error::new(ErrorCategory::UnsupportedFilesystem, "not a symlink"))
    }
}

#[test]
fn directory_listing_adds_windows_navigation_entries() {
    let context = ReadOnlyContext::new(ListingFilesystem);
    let entries = context
        .directory_entries(&FsPath::root())
        .expect("directory listing");
    assert_eq!(
        entries
            .iter()
            .map(|entry| entry.name.as_str())
            .collect::<Vec<_>>(),
        vec![".", "..", "hello.txt"]
    );
}

#[test]
fn runtime_dll_lies_in_the_bin_directory_of_the_installation() {
    assert_eq!(runtime_dll_name(TargetArch::X86), "winfsp-x86.dll");
    assert_eq!(
        runtime_dll_path("C:\\Program Files (x86)\\WinFsp\\", TargetArch::X86_64),
        "C:\\Program Files (x86)\\WinFsp\\bin\\winfsp-x64.dll"
    );
    assert_eq!(
        runtime_dll_path("D:\\WinFsp", TargetArch::Aarch64),
        "D:\\WinFsp\\bin\\winfsp-a64.dll"
    );
    assert_eq!(runtime_dll_path("E:", TargetArch::Other), "E:bin\\winfsp-unknown.dll");
    assert_eq!(winfsp_runtime_path(TargetArch::X86_64), None);
}
