use vstd::prelude::*;

use crate::app::{mountable, unmountable, SourceViewModel};
use crate::localization::{is_blank, blank, status_text, DynamicKey, UiCopy};
use crate::winfsp::{WinFspAssessment, WinFspRequirement};

verus! {

/// Half of the room left around a window, none where the window does not fit.
pub open spec fn centered_offset(room: int, size: int) -> int {
    if room - size > 0 {
        (room - size) / 2
    } else {
        0
    }
}

/// Where a window of `window_size` (width, height) goes to be centered in the
/// work area `(left, top, width, height)`; a window larger than the work area
/// keeps to its top-left corner.
pub fn centered_window_position(window_size: (i32, i32), work_area: (i32, i32, i32, i32)) -> (r: (
    i32,
    i32,
))
    requires
        i32::MIN <= work_area.2 - window_size.0 <= i32::MAX,
        i32::MIN <= work_area.3 - window_size.1 <= i32::MAX,
        work_area.0 + centered_offset(work_area.2 as int, window_size.0 as int) <= i32::MAX,
        work_area.1 + centered_offset(work_area.3 as int, window_size.1 as int) <= i32::MAX,
    ensures
        r.0 == work_area.0 + centered_offset(work_area.2 as int, window_size.0 as int),
        r.1 == work_area.1 + centered_offset(work_area.3 as int, window_size.1 as int),
{
    let (window_width, window_height) = window_size;
    let (left, top, work_width, work_height) = work_area;
    let spare_width = work_width - window_width;
    let spare_height = work_height - window_height;
    let x_offset = if spare_width > 0 {
        spare_width / 2
    } else {
        0
    };
    let y_offset = if spare_height > 0 {
        spare_height / 2
    } else {
        0
    };
    (left + x_offset, top + y_offset)
}

/// The explanation the prerequisite page gives for a requirement.
pub open spec fn prerequisite_message(requirement: WinFspRequirement) -> Seq<char> {
    match requirement {
        WinFspRequirement::Ready => "WinFsp is ready."@,
        WinFspRequirement::UnsupportedPlatform => "LinuxFS Manager requires Windows with the WinFsp framework."@,
        WinFspRequirement::InstallationNotRegistered => "WinFsp is not installed or is not registered with Windows."@,
        WinFspRequirement::RuntimeDllMissing => "The installed WinFsp runtime DLL for this computer is missing."@,
        WinFspRequirement::LauncherNotInstalled => "The WinFsp Launcher service is not installed."@,
        WinFspRequirement::LauncherNotRunning => "The WinFsp Launcher service is installed but is not running."@,
        WinFspRequirement::LauncherStatusUnavailable => "Windows could not verify the WinFsp Launcher service."@,
        WinFspRequirement::RuntimeInitializationFailed => "The installed WinFsp runtime could not be initialized."@,
    }
}

/// Whether the WinFsp prerequisite page is shown, whether the application may
/// continue past it, and what it says.
#[derive(Debug, PartialEq, Eq)]
pub struct PrerequisiteState {
    pub visible: bool,
    pub can_continue: bool,
    pub message: String,
}

impl PrerequisiteState {
    /// The page for an assessment: shown, and blocking, until WinFsp is ready.
    pub fn from_assessment(assessment: &WinFspAssessment) -> (r: Self)
        ensures
            r.visible == (assessment.spec_outcome() != WinFspRequirement::Ready),
            r.can_continue == (assessment.spec_outcome() == WinFspRequirement::Ready),
            r.message@ == prerequisite_message(assessment.spec_outcome()),
    {
        let message = match assessment.requirement() {
            WinFspRequirement::Ready => "WinFsp is ready.",
            WinFspRequirement::UnsupportedPlatform => "LinuxFS Manager requires Windows with the WinFsp framework.",
            WinFspRequirement::InstallationNotRegistered => "WinFsp is not installed or is not registered with Windows.",
            WinFspRequirement::RuntimeDllMissing => "The installed WinFsp runtime DLL for this computer is missing.",
            WinFspRequirement::LauncherNotInstalled => "The WinFsp Launcher service is not installed.",
            WinFspRequirement::LauncherNotRunning => "The WinFsp Launcher service is installed but is not running.",
            WinFspRequirement::LauncherStatusUnavailable => "Windows could not verify the WinFsp Launcher service.",
            WinFspRequirement::RuntimeInitializationFailed => "The installed WinFsp runtime could not be initialized.",
        };
        let ready = assessment.is_ready();
        PrerequisiteState { visible: !ready, can_continue: ready, message: String::from_str(message) }
    }
}

/// The engine line of the about page for a requirement.
pub open spec fn engine_status(requirement: WinFspRequirement) -> Seq<char> {
    match requirement {
        WinFspRequirement::Ready => "WinFsp engine: Ready — installed, launcher running"@,
        WinFspRequirement::InstallationNotRegistered => "WinFsp engine: Unavailable — installation not registered"@,
        WinFspRequirement::RuntimeDllMissing => "WinFsp engine: Unavailable — runtime DLL missing"@,
        WinFspRequirement::LauncherNotInstalled => "WinFsp engine: Unavailable — launcher not installed"@,
        WinFspRequirement::LauncherNotRunning => "WinFsp engine: Unavailable — launcher not running"@,
        WinFspRequirement::LauncherStatusUnavailable => "WinFsp engine: Unavailable — launcher status unavailable"@,
        WinFspRequirement::RuntimeInitializationFailed => "WinFsp engine: Unavailable — initialization failed"@,
        WinFspRequirement::UnsupportedPlatform => "WinFsp engine: Unavailable — Windows required"@,
    }
}

/// The engine line of the about page.
pub fn engine_status_text(assessment: &WinFspAssessment) -> (r: String)
    ensures
        r@ == engine_status(assessment.spec_outcome()),
{
    let text = match assessment.requirement() {
        WinFspRequirement::Ready => "WinFsp engine: Ready — installed, launcher running",
        WinFspRequirement::InstallationNotRegistered => "WinFsp engine: Unavailable — installation not registered",
        WinFspRequirement::RuntimeDllMissing => "WinFsp engine: Unavailable — runtime DLL missing",
        WinFspRequirement::LauncherNotInstalled => "WinFsp engine: Unavailable — launcher not installed",
        WinFspRequirement::LauncherNotRunning => "WinFsp engine: Unavailable — launcher not running",
        WinFspRequirement::LauncherStatusUnavailable => "WinFsp engine: Unavailable — launcher status unavailable",
        WinFspRequirement::RuntimeInitializationFailed => "WinFsp engine: Unavailable — initialization failed",
        WinFspRequirement::UnsupportedPlatform => "WinFsp engine: Unavailable — Windows required",
    };
    String::from_str(text)
}

/// Starts an operation unless one is pending: runs `start` and keeps what it
/// gives, and reports whether it did.
pub fn start_pending_operation<T, F: FnOnce() -> T>(pending: &mut Option<T>, start: F) -> (r: bool)
    requires
        *old(pending) is None ==> start.requires(()),
    ensures
        r == (*old(pending) is None),
        !r ==> *final(pending) == *old(pending),
        r ==> (*final(pending) matches Some(value) && start.ensures((), value)),
{
    if pending.is_some() {
        return false;
    }
    let value = start();
    *pending = Some(value);
    true
}

/// What the main window shows of the source and which commands it offers.
#[derive(Debug, PartialEq, Eq)]
pub struct UiState {
    pub image_path: String,
    pub source_name: String,
    pub source_details: String,
    pub status: String,
    pub can_mount: bool,
    pub can_unmount: bool,
}

/// The details line of a compatible source.
pub open spec fn compatible_details(filesystem: Seq<char>, description: Seq<char>) -> Seq<char> {
    filesystem + " · "@ + description + " · Compatible · Read-only source"@
}

/// The details line of a selected source.
pub open spec fn source_details_text(source: SourceViewModel) -> Seq<char> {
    let filesystem = match source.filesystem_type {
        Some(t) => t@,
        None => "Unknown"@,
    };
    filesystem + " · "@ + source.source_description@ + " · Read-only source"@
}

impl UiState {
    /// The window before any source is loaded, for the image path `path`.
    pub fn new(path: &str, copy: UiCopy) -> (r: Self)
        ensures
            r.image_path@ == path@,
            r.source_name@ == copy.language.no_source_text(),
            r.source_details@ == copy.language.raw_image_hint_text(),
            r.status@ == status_text(copy.language, DynamicKey::Ready, Seq::empty()),
            !r.can_mount,
            !r.can_unmount,
    {
        UiState {
            image_path: String::from_str(path),
            source_name: String::from_str(copy.no_source_loaded()),
            source_details: String::from_str(copy.open_raw_image_hint()),
            status: copy.ready(),
            can_mount: false,
            can_unmount: false,
        }
    }

    /// Accepts an image path that holds more than white space.
    pub fn validate_path(path: &str) -> (r: Result<(), &'static str>)
        ensures
            r is Ok <==> !is_blank(path@),
            r matches Err(message) ==> message@ == "provide an image path"@,
    {
        if blank(path) {
            Err("provide an image path")
        } else {
            Ok(())
        }
    }

    /// Shows a compatible source that can be mounted.
    pub fn set_compatible(&mut self, filesystem: &str, description: &str)
        ensures
            final(self).source_details@ == compatible_details(filesystem@, description@),
            final(self).can_mount,
            !final(self).can_unmount,
            final(self).image_path == old(self).image_path,
            final(self).source_name == old(self).source_name,
            final(self).status == old(self).status,
    {
        let mut details = String::from_str(filesystem);
        details.append(" · ");
        details.append(description);
        details.append(" · Compatible · Read-only source");
        self.source_details = details;
        self.can_mount = true;
        self.can_unmount = false;
    }

    /// Shows a selected source with the commands its state allows.
    pub fn set_source(&mut self, source: &SourceViewModel)
        ensures
            final(self).source_name@ == source.display_name@,
            final(self).source_details@ == source_details_text(*source),
            final(self).can_mount == mountable(*source),
            final(self).can_unmount == unmountable(*source),
            final(self).image_path == old(self).image_path,
            final(self).status == old(self).status,
    {
        let mut details = match &source.filesystem_type {
            Some(t) => t.clone(),
            None => String::from_str("Unknown"),
        };
        details.append(" · ");
        details.append(source.source_description.as_str());
        details.append(" · Read-only source");
        self.source_name = source.display_name.clone();
        self.source_details = details;
        self.can_mount = source.can_mount();
        self.can_unmount = source.can_unmount();
    }

    /// Shows a volume mounted at `point`; only unmounting is offered.
    pub fn set_mounted(&mut self, point: &str)
        ensures
            final(self).status@ == "Mounted read-only on "@ + point@ + " — source unchanged"@,
            !final(self).can_mount,
            final(self).can_unmount,
            final(self).image_path == old(self).image_path,
            final(self).source_name == old(self).source_name,
            final(self).source_details == old(self).source_details,
    {
        let mut status = String::from_str("Mounted read-only on ");
        status.append(point);
        status.append(" — source unchanged");
        self.status = status;
        self.can_mount = false;
        self.can_unmount = true;
    }

    /// Shows a completed unmount; only mounting is offered.
    pub fn set_unmounted(&mut self)
        ensures
            final(self).status@ == "Unmount completed"@,
            final(self).can_mount,
            !final(self).can_unmount,
            final(self).image_path == old(self).image_path,
            final(self).source_name == old(self).source_name,
            final(self).source_details == old(self).source_details,
    {
        self.status = String::from_str("Unmount completed");
        self.can_mount = true;
        self.can_unmount = false;
    }
}

} // verus!
