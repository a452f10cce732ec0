use linuxfs::runtime::winfsp_status_record;
use linuxfs::winfsp::{WinFspAssessment, WinFspLauncherStatus};

#[test]
fn winfsp_status_record_is_versioned_and_diagnostic() {
    let assessment = WinFspAssessment::from_checks(true, true, WinFspLauncherStatus::Running, true);

    let content = winfsp_status_record(&assessment, 1_700_000_000);

    assert!(content.contains("status_version = 1"));
    assert!(content.contains("status = \"ready\""));
    assert!(content.contains("launcher_service = \"running\""));
}

#[test]
fn status_record_lists_every_check() {
    let assessment =
        WinFspAssessment::from_checks(true, false, WinFspLauncherStatus::QueryFailed, false);
    assert_eq!(
        winfsp_status_record(&assessment, 42),
        "status_version = 1\nchecked_at_utc_unix_seconds = 42\nstatus = \"runtime_dll_missing\"\ninstallation_registered = true\nruntime_dll_present = false\nlauncher_service = \"query_failed\"\nruntime_initialized = false\n"
    );
}
