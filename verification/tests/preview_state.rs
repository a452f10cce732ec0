use linuxfs::app::{SourceId, SourceKind, SourceStatus, SourceViewModel};
use linuxfs::localization::{catalog, UiLanguage};
use linuxfs::preview::{
    centered_window_position, engine_status_text, start_pending_operation, PrerequisiteState,
    UiState,
};
use linuxfs::winfsp::{WinFspAssessment, WinFspLauncherStatus};

#[test]
fn centered_window_position_uses_work_area_origin_and_size() {
    assert_eq!(
        centered_window_position((1200, 820), (0, 0, 1680, 1010)),
        (240, 95)
    );
}

#[test]
fn oversized_windows_keep_to_the_work_area_corner() {
    assert_eq!(
        centered_window_position((2000, 1200), (-1920, 40, 1920, 1040)),
        (-1920, 40)
    );
    assert_eq!(centered_window_position((100, 100), (10, 20, 301, 100)), (110, 20));
}

#[test]
fn engine_status_text_confirms_a_ready_winfsp_engine() {
    let assessment = WinFspAssessment::from_checks(true, true, WinFspLauncherStatus::Running, true);

    assert_eq!(
        engine_status_text(&assessment),
        "WinFsp engine: Ready — installed, launcher running"
    );
}

#[test]
fn engine_status_names_the_first_missing_prerequisite() {
    let assessment = WinFspAssessment::from_checks(true, false, WinFspLauncherStatus::Stopped, false);
    assert_eq!(
        engine_status_text(&assessment),
        "WinFsp engine: Unavailable — runtime DLL missing"
    );
    let state = PrerequisiteState::from_assessment(&assessment);
    assert_eq!(
        state.message,
        "The installed WinFsp runtime DLL for this computer is missing."
    );
}

#[test]
fn prerequisite_state_blocks_startup_until_winfsp_is_ready() {
    let unavailable = PrerequisiteState::from_assessment(&WinFspAssessment::from_checks(
        false,
        false,
        WinFspLauncherStatus::NotInstalled,
        false,
    ));
    assert!(unavailable.visible);
    assert!(!unavailable.can_continue);

    let ready = PrerequisiteState::from_assessment(&WinFspAssessment::from_checks(
        true,
        true,
        WinFspLauncherStatus::Running,
        true,
    ));
    assert!(!ready.visible);
    assert!(ready.can_continue);
}

#[test]
fn ui_state_tracks_source_and_mount_capabilities() {
    let mut state = UiState::new("disk.raw", catalog(UiLanguage::English));
    assert_eq!(state.image_path, "disk.raw");
    assert!(!state.can_mount);
    state.set_compatible("ext4", "Raw image");
    assert!(state.can_mount);
    state.set_mounted("L:");
    assert!(!state.can_mount);
    assert!(state.can_unmount);
    state.set_unmounted();
    assert!(state.can_mount);
    assert!(!state.can_unmount);
}

#[test]
fn ui_state_texts_follow_each_step() {
    let mut state = UiState::new("disk.raw", catalog(UiLanguage::Spanish));
    assert_eq!(state.source_name, "No hay fuente cargada");
    state.set_compatible("ext4", "Raw image");
    assert_eq!(state.source_details, "ext4 · Raw image · Compatible · Read-only source");
    state.set_mounted("L:");
    assert_eq!(state.status, "Mounted read-only on L: — source unchanged");
    state.set_unmounted();
    assert_eq!(state.status, "Unmount completed");
}

#[test]
fn ui_state_selection_preserves_mounted_source_capabilities() {
    let source = SourceViewModel {
        id: SourceId(1),
        kind: SourceKind::Image,
        display_name: "fixture.img".to_owned(),
        source_description: "Raw image".to_owned(),
        source_path: "fixture.img".to_owned(),
        partition_range: None,
        physical_disk_index: None,
        filesystem_type: Some("ext4".to_owned()),
        label: None,
        uuid: None,
        size_bytes: None,
        status: SourceStatus::Mounted,
        mount_point: Some("L:".to_owned()),
        read_only: true,
    };
    let mut state = UiState::new("", catalog(UiLanguage::English));

    state.set_source(&source);

    assert!(!state.can_mount);
    assert!(state.can_unmount);
    assert_eq!(state.source_details, "ext4 · Raw image · Read-only source");
}

#[test]
fn empty_cli_path_is_rejected_without_fake_success() {
    assert_eq!(UiState::validate_path(" "), Err("provide an image path"));
    assert_eq!(UiState::validate_path(" disk.raw "), Ok(()));
}

#[test]
fn pending_operation_start_does_not_replace_an_active_operation() {
    let pending = std::sync::Mutex::new(None);

    assert!(start_pending_operation(&mut pending.lock().expect("pending lock"), || "first".to_owned()));
    assert!(!start_pending_operation(&mut pending.lock().expect("pending lock"), || "second".to_owned()));
    assert_eq!(
        pending.lock().expect("pending lock").as_deref(),
        Some("first")
    );
}
