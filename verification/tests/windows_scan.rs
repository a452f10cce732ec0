use linuxfs::block::{BlockReader, MemoryReader, PartitionReader};
use linuxfs::error::{Error, ErrorCategory, Result};
use linuxfs::filesystem::FilesystemInfo;
use linuxfs::windows::{
    discover_physical_disks, discover_physical_partitions, discover_physical_partitions_checked,
    hex_bytes, physical_disk_path, probe_physical_partitions,
    probe_physical_partitions_with_diagnostics, scan_outcome, DiskDevices,
    FilesystemProbe, PhysicalScanReport, ProbedFilesystem,
};
use std::sync::Arc;

struct NoDisks;

impl DiskDevices for NoDisks {
    type Reader = MemoryReader;

    fn open_physical(&self, _index: u32) -> Result<MemoryReader> {
        Err(Error::new(ErrorCategory::StorageAccess, "Access is denied"))
    }

    fn open_volume(&self, _letter: u8) -> Result<MemoryReader> {
        Err(Error::new(ErrorCategory::StorageAccess, "Access is denied"))
    }
}

struct RejectAll;

impl FilesystemProbe for RejectAll {
    fn probe<R: BlockReader + ?Sized + 'static>(
        &self,
        _source: Arc<PartitionReader<R>>,
    ) -> Result<ProbedFilesystem> {
        Err(Error::new(ErrorCategory::UnsupportedFilesystem, "nothing here"))
    }
}

struct AcceptAll;

impl FilesystemProbe for AcceptAll {
    fn probe<R: BlockReader + ?Sized + 'static>(
        &self,
        source: Arc<PartitionReader<R>>,
    ) -> Result<ProbedFilesystem> {
        Ok(ProbedFilesystem {
            kind: "ext2/ext3/ext4".to_owned(),
            info: Ok(FilesystemInfo {
                filesystem_type: "ext2/ext3/ext4".to_owned(),
                label: None,
                uuid: None,
                block_size: None,
                total_size: Some(source.len()?),
                free_size: None,
            }),
        })
    }
}

#[test]
fn physical_paths_are_bounded_by_numeric_index() {
    assert_eq!(physical_disk_path(0), r"\\.\PhysicalDrive0");
    assert_eq!(physical_disk_path(12), r"\\.\PhysicalDrive12");
}

#[test]
fn discovery_with_zero_limit_is_empty() {
    assert!(discover_physical_disks(&NoDisks, 0).is_empty());
}

#[test]
fn synthetic_direct_source_has_no_physical_partitions() {
    let reader = Arc::new(MemoryReader::new(vec![0; 4096]));
    let partitions = probe_physical_partitions(7, reader, &AcceptAll).expect("synthetic probe succeeds");
    assert!(partitions.is_empty());
}

#[test]
fn physical_scan_report_renders_diagnostics() {
    let report = PhysicalScanReport {
        partitions: Vec::new(),
        diagnostics: vec!["PhysicalDrive3: open failed: Access is denied".to_owned()],
    };
    let rendered = report.render();
    assert!(rendered.contains("LinuxFS Manager physical scan diagnostics"));
    assert!(rendered.contains("PhysicalDrive3: open failed: Access is denied"));
    assert!(rendered.contains("Discovered supported filesystem partitions: 0"));
}

fn mbr_disk() -> Vec<u8> {
    let mut disk = vec![0u8; 64 * 1024];
    let entry = 446;
    disk[entry + 4] = 0x83;
    disk[entry + 8..entry + 12].copy_from_slice(&16u32.to_le_bytes());
    disk[entry + 12..entry + 16].copy_from_slice(&64u32.to_le_bytes());
    disk[510] = 0x55;
    disk[511] = 0xaa;
    disk
}

#[test]
fn probe_lists_recognized_partitions_and_explains_rejections() {
    let reader = Arc::new(MemoryReader::new(mbr_disk()));
    let found = probe_physical_partitions(4, reader.clone(), &AcceptAll).expect("recognized");
    assert_eq!(found.len(), 1);
    assert_eq!(found[0].disk_index, 4);
    assert_eq!(found[0].source_path, r"\\.\PhysicalDrive4");
    assert_eq!(found[0].partition.byte_offset, 16 * 512);
    assert_eq!(found[0].filesystem.total_size, Some(64 * 512));
    let error = probe_physical_partitions(4, reader, &RejectAll).expect_err("nothing recognized");
    assert_eq!(error.category(), ErrorCategory::UnsupportedFilesystem);
    assert_eq!(
        error.to_string(),
        "no supported filesystem partition; partition 1: nothing here"
    );
}

#[test]
fn scans_without_disks_explain_themselves() {
    let report = linuxfs::windows::scan_physical_partitions(&NoDisks, &AcceptAll, 2);
    assert_eq!(
        report.diagnostics,
        vec![
            "PhysicalDrive0: open failed: Access is denied".to_owned(),
            "PhysicalDrive1: open failed: Access is denied".to_owned(),
        ]
    );
    let error = discover_physical_partitions_checked(&NoDisks, &AcceptAll, 2).expect_err("none");
    assert_eq!(error.category(), ErrorCategory::UnsupportedFilesystem);
    assert_eq!(error.to_string(), report.render());
    assert_eq!(
        discover_physical_partitions_checked(&NoDisks, &AcceptAll, 0)
            .expect_err("no diagnostics")
            .category(),
        ErrorCategory::StorageAccess
    );
    assert!(discover_physical_partitions(&NoDisks, &AcceptAll, 3).is_empty());
    assert_eq!(
        scan_outcome(PhysicalScanReport::default()).expect_err("empty").to_string(),
        "physical scan produced no diagnostics"
    );
}

#[test]
fn hex_previews_are_upper_case_and_spaced() {
    assert_eq!(hex_bytes(&[0x0a, 0xff, 0x53]), "0A FF 53");
    assert_eq!(hex_bytes(&[]), "");
}

#[test]
fn probe_diagnostics_start_with_sector_previews_and_layout() {
    let disk = mbr_disk();
    let reader = Arc::new(MemoryReader::new(disk.clone()));
    let mut diagnostics = vec!["earlier line".to_owned()];
    let found = probe_physical_partitions_with_diagnostics(4, reader, &AcceptAll, &mut diagnostics)
        .expect("recognized");
    assert_eq!(found.len(), 1);
    assert_eq!(diagnostics[0], "earlier line");
    assert_eq!(diagnostics[1], format!("LBA 0: {}", hex_bytes(&disk[0..16])));
    assert_eq!(diagnostics[2], format!("LBA 1: {}", hex_bytes(&disk[512..528])));
    assert_eq!(diagnostics[3], "PhysicalDrive4: layout=MBR");
    assert!(diagnostics.len() > 4);
}
