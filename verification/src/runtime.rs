use vstd::prelude::*;

use crate::text::{decimal, push_decimal};
use crate::winfsp::{WinFspAssessment, WinFspLauncherStatus, WinFspRequirement};

verus! {

/// How the status record names a requirement.
pub open spec fn requirement_key(requirement: WinFspRequirement) -> Seq<char> {
    match requirement {
        WinFspRequirement::Ready => "ready"@,
        WinFspRequirement::UnsupportedPlatform => "unsupported_platform"@,
        WinFspRequirement::InstallationNotRegistered => "installation_not_registered"@,
        WinFspRequirement::RuntimeDllMissing => "runtime_dll_missing"@,
        WinFspRequirement::LauncherNotInstalled => "launcher_not_installed"@,
        WinFspRequirement::LauncherNotRunning => "launcher_not_running"@,
        WinFspRequirement::LauncherStatusUnavailable => "launcher_status_unavailable"@,
        WinFspRequirement::RuntimeInitializationFailed => "runtime_initialization_failed"@,
    }
}

/// How the status record names a launcher state.
pub open spec fn launcher_key(status: WinFspLauncherStatus) -> Seq<char> {
    match status {
        WinFspLauncherStatus::NotInstalled => "not_installed"@,
        WinFspLauncherStatus::Stopped => "stopped"@,
        WinFspLauncherStatus::Running => "running"@,
        WinFspLauncherStatus::QueryFailed => "query_failed"@,
        WinFspLauncherStatus::UnsupportedPlatform => "unsupported_platform"@,
    }
}

/// A boolean as TOML writes it.
pub open spec fn flag_text(value: bool) -> Seq<char> {
    if value {
        "true"@
    } else {
        "false"@
    }
}

/// The diagnostic record of an assessment made at `checked_at` (seconds since the
/// Unix epoch): a versioned TOML document of the outcome and of every check.
pub open spec fn status_record_text(assessment: WinFspAssessment, checked_at: u64) -> Seq<char> {
    "status_version = 1\nchecked_at_utc_unix_seconds = "@ + decimal(checked_at as nat)
        + "\nstatus = \""@ + requirement_key(assessment.spec_outcome())
        + "\"\ninstallation_registered = "@ + flag_text(assessment.spec_checks().0)
        + "\nruntime_dll_present = "@ + flag_text(assessment.spec_checks().1)
        + "\nlauncher_service = \""@ + launcher_key(assessment.spec_launcher())
        + "\"\nruntime_initialized = "@ + flag_text(assessment.spec_checks().2) + "\n"@
}

fn flag(value: bool) -> (r: &'static str)
    ensures
        r@ == flag_text(value),
{
    if value {
        "true"
    } else {
        "false"
    }
}

/// The diagnostic record of an assessment made at `checked_at` seconds since the
/// Unix epoch. The record is never read back to authorize anything.
pub fn winfsp_status_record(assessment: &WinFspAssessment, checked_at: u64) -> (r: String)
    ensures
        r@ == status_record_text(*assessment, checked_at),
{
    let requirement = match assessment.requirement() {
        WinFspRequirement::Ready => "ready",
        WinFspRequirement::UnsupportedPlatform => "unsupported_platform",
        WinFspRequirement::InstallationNotRegistered => "installation_not_registered",
        WinFspRequirement::RuntimeDllMissing => "runtime_dll_missing",
        WinFspRequirement::LauncherNotInstalled => "launcher_not_installed",
        WinFspRequirement::LauncherNotRunning => "launcher_not_running",
        WinFspRequirement::LauncherStatusUnavailable => "launcher_status_unavailable",
        WinFspRequirement::RuntimeInitializationFailed => "runtime_initialization_failed",
    };
    let launcher = match assessment.launcher_status() {
        WinFspLauncherStatus::NotInstalled => "not_installed",
        WinFspLauncherStatus::Stopped => "stopped",
        WinFspLauncherStatus::Running => "running",
        WinFspLauncherStatus::QueryFailed => "query_failed",
        WinFspLauncherStatus::UnsupportedPlatform => "unsupported_platform",
    };
    let mut record = String::from_str("status_version = 1\nchecked_at_utc_unix_seconds = ");
    push_decimal(&mut record, checked_at);
    record.append("\nstatus = \"");
    record.append(requirement);
    record.append("\"\ninstallation_registered = ");
    record.append(flag(assessment.installation_registered()));
    record.append("\nruntime_dll_present = ");
    record.append(flag(assessment.runtime_dll_present()));
    record.append("\nlauncher_service = \"");
    record.append(launcher);
    record.append("\"\nruntime_initialized = ");
    record.append(flag(assessment.runtime_initialized()));
    record.append("\n");
    record
}

} // verus!
