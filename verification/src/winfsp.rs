use vstd::prelude::*;

use crate::error::{Error, ErrorCategory, Result};
use crate::filesystem::{
    DirectoryEntry, FileKind, FilesystemInfo, FsPath, NodeMetadata, ReadOnlyFilesystem,
};
use crate::filesystem::{path_error_text, spec_normalize};
use crate::text::{chars_of, push_char, str_eq};

verus! {

/// Result of checking whether the WinFsp runtime can be loaded.
#[derive(Debug, Clone, Copy, PartialEq, Eq, Structural)]
pub enum WinFspStatus {
    /// The WinFsp runtime is available to this process.
    Available,
    /// WinFsp is not available, with a stable diagnostic reason.
    Unavailable { reason: WinFspUnavailableReason },
}

/// Why WinFsp is unavailable.
#[derive(Debug, Clone, Copy, PartialEq, Eq, Structural)]
pub enum WinFspUnavailableReason {
    /// The check ran on a target without the WinFsp runtime.
    UnsupportedPlatform,
    /// The WinFsp runtime could not be loaded.
    RuntimeUnavailable,
}

impl WinFspStatus {
    pub fn is_available(&self) -> (r: bool)
        ensures
            r == (*self is Available),
    {
        match self {
            WinFspStatus::Available => true,
            WinFspStatus::Unavailable { .. } => false,
        }
    }
}

/// The availability reported for a runtime that was (or was not) loaded and
/// initialized.
pub fn runtime_status(runtime_loaded: bool, initialized: bool) -> (s: WinFspStatus)
    ensures
        s is Available <==> runtime_loaded && initialized,
        !(s is Available) ==> s == (WinFspStatus::Unavailable {
            reason: WinFspUnavailableReason::RuntimeUnavailable,
        }),
{
    if runtime_loaded && initialized {
        WinFspStatus::Available
    } else {
        WinFspStatus::Unavailable { reason: WinFspUnavailableReason::RuntimeUnavailable }
    }
}

/// Checks WinFsp availability on a target that has no WinFsp runtime binding
/// (every target this library is built for): the answer is always
/// `UnsupportedPlatform`, and nothing is installed, started or changed.
pub fn check_winfsp() -> (s: WinFspStatus)
    ensures
        s == (WinFspStatus::Unavailable { reason: WinFspUnavailableReason::UnsupportedPlatform }),
{
    WinFspStatus::Unavailable { reason: WinFspUnavailableReason::UnsupportedPlatform }
}

/// Prepares the runtime before any WinFsp call; without a runtime binding there
/// is nothing to load.
pub fn prepare_runtime() -> (r: Result<()>)
    ensures
        r is Ok,
{
    Ok(())
}

/// The registered WinFsp installation directory; none without a runtime binding.
pub fn winfsp_installation_dir() -> (r: Option<String>)
    ensures
        r is None,
{
    None
}

/// The processor architecture that a WinFsp runtime DLL is built for.
#[derive(Debug, Clone, Copy, PartialEq, Eq, Structural)]
pub enum TargetArch {
    X86_64,
    X86,
    Aarch64,
    Other,
}

/// The file name of the WinFsp runtime DLL for `arch`.
pub open spec fn runtime_dll_text(arch: TargetArch) -> Seq<char> {
    match arch {
        TargetArch::X86_64 => "winfsp-x64.dll"@,
        TargetArch::X86 => "winfsp-x86.dll"@,
        TargetArch::Aarch64 => "winfsp-a64.dll"@,
        TargetArch::Other => "winfsp-unknown.dll"@,
    }
}

/// The file name of the WinFsp runtime DLL for `arch`.
pub fn runtime_dll_name(arch: TargetArch) -> (r: &'static str)
    ensures
        r@ == runtime_dll_text(arch),
{
    match arch {
        TargetArch::X86_64 => "winfsp-x64.dll",
        TargetArch::X86 => "winfsp-x86.dll",
        TargetArch::Aarch64 => "winfsp-a64.dll",
        TargetArch::Other => "winfsp-unknown.dll",
    }
}

/// Whether `c` separates the parts of a Windows path.
pub open spec fn is_path_separator(c: char) -> bool {
    c == '\\' || c == '/'
}

/// The relative path `name` appended to the Windows path `directory`: a
/// backslash goes between them unless `directory` is empty, ends with a
/// separator, or is a bare drive such as `C:`.
pub open spec fn path_joined(directory: Seq<char>, name: Seq<char>) -> Seq<char> {
    if directory.len() == 0 || is_path_separator(directory.last()) || (directory.len() == 2
        && directory[1] == ':') {
        directory + name
    } else {
        directory + seq!['\\'] + name
    }
}

/// `name` appended to `directory` as [`path_joined`] states.
fn join_path(directory: &str, name: &str) -> (r: String)
    ensures
        r@ == path_joined(directory@, name@),
{
    let chars = chars_of(directory);
    let n = chars.len();
    let mut r = String::from_str(directory);
    if n != 0 && chars[n - 1] != '\\' && chars[n - 1] != '/' && !(n == 2 && chars[1] == ':') {
        push_char(&mut r, '\\');
    }
    r.append(name);
    r
}

/// The runtime DLL for `arch` in the `bin` directory of the WinFsp
/// installation `directory`.
pub fn runtime_dll_path(directory: &str, arch: TargetArch) -> (r: String)
    ensures
        r@ == path_joined(path_joined(directory@, "bin"@), runtime_dll_text(arch)),
{
    let bin = join_path(directory, "bin");
    join_path(bin.as_str(), runtime_dll_name(arch))
}

/// The registered runtime DLL path for `arch`; none where no installation is
/// registered, as on every target without a runtime binding.
pub fn winfsp_runtime_path(arch: TargetArch) -> (r: Option<String>)
    ensures
        r is None,
{
    match winfsp_installation_dir() {
        Some(directory) => Some(runtime_dll_path(directory.as_str(), arch)),
        None => None,
    }
}

/// State of the WinFsp launcher service.
#[derive(Debug, Clone, Copy, PartialEq, Eq, Structural)]
pub enum WinFspLauncherStatus {
    NotInstalled,
    Stopped,
    Running,
    QueryFailed,
    UnsupportedPlatform,
}

/// The first unmet WinFsp prerequisite, or `Ready`.
#[derive(Debug, Clone, Copy, PartialEq, Eq, Structural)]
pub enum WinFspRequirement {
    Ready,
    UnsupportedPlatform,
    InstallationNotRegistered,
    RuntimeDllMissing,
    LauncherNotInstalled,
    LauncherNotRunning,
    LauncherStatusUnavailable,
    RuntimeInitializationFailed,
}

/// The results of the independent WinFsp prerequisite checks.
#[derive(Debug, Clone, Copy, PartialEq, Eq, Structural)]
pub struct WinFspAssessment {
    installation_registered: bool,
    runtime_dll_present: bool,
    launcher_status: WinFspLauncherStatus,
    runtime_initialized: bool,
}

/// The first unmet prerequisite, checked in order: platform, registration,
/// runtime DLL, launcher service, runtime initialization.
pub open spec fn spec_requirement(
    installation_registered: bool,
    runtime_dll_present: bool,
    launcher_status: WinFspLauncherStatus,
    runtime_initialized: bool,
) -> WinFspRequirement {
    if launcher_status == WinFspLauncherStatus::UnsupportedPlatform {
        WinFspRequirement::UnsupportedPlatform
    } else if !installation_registered {
        WinFspRequirement::InstallationNotRegistered
    } else if !runtime_dll_present {
        WinFspRequirement::RuntimeDllMissing
    } else if launcher_status == WinFspLauncherStatus::NotInstalled {
        WinFspRequirement::LauncherNotInstalled
    } else if launcher_status == WinFspLauncherStatus::Stopped {
        WinFspRequirement::LauncherNotRunning
    } else if launcher_status == WinFspLauncherStatus::QueryFailed {
        WinFspRequirement::LauncherStatusUnavailable
    } else if !runtime_initialized {
        WinFspRequirement::RuntimeInitializationFailed
    } else {
        WinFspRequirement::Ready
    }
}

impl WinFspAssessment {
    /// The requirement this assessment reports.
    pub closed spec fn spec_outcome(self) -> WinFspRequirement {
        spec_requirement(
            self.installation_registered,
            self.runtime_dll_present,
            self.launcher_status,
            self.runtime_initialized,
        )
    }

    /// The launcher state this assessment recorded.
    pub closed spec fn spec_launcher(self) -> WinFspLauncherStatus {
        self.launcher_status
    }

    /// The three boolean checks this assessment recorded.
    pub closed spec fn spec_checks(self) -> (bool, bool, bool) {
        (self.installation_registered, self.runtime_dll_present, self.runtime_initialized)
    }

    pub fn from_checks(
        installation_registered: bool,
        runtime_dll_present: bool,
        launcher_status: WinFspLauncherStatus,
        runtime_initialized: bool,
    ) -> (a: Self)
        ensures
            a.spec_outcome() == spec_requirement(
                installation_registered,
                runtime_dll_present,
                launcher_status,
                runtime_initialized,
            ),
            a.spec_launcher() == launcher_status,
            a.spec_checks() == (installation_registered, runtime_dll_present, runtime_initialized),
    {
        WinFspAssessment {
            installation_registered,
            runtime_dll_present,
            launcher_status,
            runtime_initialized,
        }
    }

    pub fn requirement(&self) -> (r: WinFspRequirement)
        ensures
            r == self.spec_outcome(),
    {
        if self.launcher_status == WinFspLauncherStatus::UnsupportedPlatform {
            WinFspRequirement::UnsupportedPlatform
        } else if !self.installation_registered {
            WinFspRequirement::InstallationNotRegistered
        } else if !self.runtime_dll_present {
            WinFspRequirement::RuntimeDllMissing
        } else if self.launcher_status == WinFspLauncherStatus::NotInstalled {
            WinFspRequirement::LauncherNotInstalled
        } else if self.launcher_status == WinFspLauncherStatus::Stopped {
            WinFspRequirement::LauncherNotRunning
        } else if self.launcher_status == WinFspLauncherStatus::QueryFailed {
            WinFspRequirement::LauncherStatusUnavailable
        } else if !self.runtime_initialized {
            WinFspRequirement::RuntimeInitializationFailed
        } else {
            WinFspRequirement::Ready
        }
    }

    /// Ready exactly when all four checks passed.
    pub fn is_ready(&self) -> (r: bool)
        ensures
            r == (self.spec_outcome() == WinFspRequirement::Ready),
            r == (self.spec_checks() == (true, true, true) && self.spec_launcher()
                == WinFspLauncherStatus::Running),
    {
        self.requirement() == WinFspRequirement::Ready
    }

    pub fn installation_registered(&self) -> (r: bool)
        ensures
            r == self.spec_checks().0,
    {
        self.installation_registered
    }

    pub fn runtime_dll_present(&self) -> (r: bool)
        ensures
            r == self.spec_checks().1,
    {
        self.runtime_dll_present
    }

    pub fn launcher_status(&self) -> (r: WinFspLauncherStatus)
        ensures
            r == self.spec_launcher(),
    {
        self.launcher_status
    }

    pub fn runtime_initialized(&self) -> (r: bool)
        ensures
            r == self.spec_checks().2,
    {
        self.runtime_initialized
    }
}

/// Windows filesystem requests handled by the adapter boundary.
#[derive(Debug, Clone, Copy, PartialEq, Eq, Structural)]
pub enum WinOperation {
    QueryVolumeInformation,
    Open,
    QueryFileInformation,
    ReadDirectory,
    Read,
    ReadLink,
    Cleanup,
    Close,
    Create,
    Write,
    SetFileSize,
    CanDelete,
    Delete,
    Rename,
    SetBasicInformation,
    SetSecurity,
    Flush,
}

/// The only decisions permitted at the WinFsp boundary.
#[derive(Debug, Clone, Copy, PartialEq, Eq, Structural)]
pub enum OperationDecision {
    AllowRead,
    DenyReadOnly,
}

/// Whether an operation only reads (or releases) state.
pub open spec fn is_read_operation(operation: WinOperation) -> bool {
    match operation {
        WinOperation::QueryVolumeInformation | WinOperation::Open
        | WinOperation::QueryFileInformation | WinOperation::ReadDirectory | WinOperation::Read
        | WinOperation::ReadLink | WinOperation::Cleanup | WinOperation::Close => true,
        _ => false,
    }
}

impl WinOperation {
    /// Read operations are allowed; every operation that could change the source is denied.
    pub fn decision(self) -> (d: OperationDecision)
        ensures
            d == (if is_read_operation(self) {
                OperationDecision::AllowRead
            } else {
                OperationDecision::DenyReadOnly
            }),
    {
        match self {
            WinOperation::QueryVolumeInformation | WinOperation::Open
            | WinOperation::QueryFileInformation | WinOperation::ReadDirectory
            | WinOperation::Read | WinOperation::ReadLink | WinOperation::Cleanup
            | WinOperation::Close => OperationDecision::AllowRead,
            WinOperation::Create | WinOperation::Write | WinOperation::SetFileSize
            | WinOperation::CanDelete | WinOperation::Delete | WinOperation::Rename
            | WinOperation::SetBasicInformation | WinOperation::SetSecurity
            | WinOperation::Flush => OperationDecision::DenyReadOnly,
        }
    }
}

/// Read-only filesystem operations exposed to a native WinFsp host, which must
/// call `authorize` before handling every request.
pub struct ReadOnlyDispatcher<F> {
    filesystem: F,
}

impl<F: ReadOnlyFilesystem> ReadOnlyDispatcher<F> {
    /// The filesystem requests are forwarded to.
    pub closed spec fn target(&self) -> F {
        self.filesystem
    }

    pub fn new(filesystem: F) -> (d: Self)
        ensures
            d.target() == filesystem,
    {
        ReadOnlyDispatcher { filesystem }
    }

    /// Succeeds exactly for read operations; everything else is denied as a
    /// permission error.
    pub fn authorize(operation: WinOperation) -> (r: Result<()>)
        ensures
            r is Ok <==> is_read_operation(operation),
            r matches Err(e) ==> e.kind() == ErrorCategory::PermissionDenied,
    {
        match operation.decision() {
            OperationDecision::AllowRead => Ok(()),
            OperationDecision::DenyReadOnly => Err(
                Error::new(
                    ErrorCategory::PermissionDenied,
                    "operation denied: LinuxFS Manager is read-only",
                ),
            ),
        }
    }

    /// The details of the target filesystem, as it gives them.
    pub fn info(&self) -> (r: Result<FilesystemInfo>)
        ensures
            call_ensures(F::info, (&self.target(),), r),
    {
        self.filesystem.info()
    }

    /// The metadata of `path`, as the target filesystem gives it.
    pub fn lookup(&self, path: &FsPath) -> (r: Result<NodeMetadata>)
        ensures
            call_ensures(F::lookup, (&self.target(), path), r),
    {
        self.filesystem.lookup(path)
    }

    /// The entries of the directory `path`, as the target filesystem lists them.
    pub fn read_dir(&self, path: &FsPath) -> (r: Result<Vec<DirectoryEntry>>)
        ensures
            call_ensures(F::read_dir, (&self.target(), path), r),
    {
        self.filesystem.read_dir(path)
    }

    /// Reads the file `path` of the target filesystem from byte `offset` into
    /// `destination`, as that filesystem does: at most the destination's length.
    pub fn read_file_at(&self, path: &FsPath, offset: u64, destination: &mut [u8]) -> (r: Result<
        usize,
    >)
        ensures
            final(destination)@.len() == old(destination)@.len(),
            r matches Ok(n) ==> n <= old(destination)@.len(),
            exists|d: &mut [u8]|
                #[trigger] call_ensures(F::read_file_at, (&self.target(), path, offset, d), r) && d@ == old(
                    destination,
                )@ && final(d)@ == final(destination)@,
    {
        let r = self.filesystem.read_file_at(path, offset, destination);
        assert(exists|d: &mut [u8]|
            #[trigger] call_ensures(F::read_file_at, (&self.target(), path, offset, d), r) && d@ == old(
                destination,
            )@ && final(d)@ == destination@);
        assert(final(destination)@ == destination@);
        r
    }

    /// The target of the symbolic link `path`, as the target filesystem reads it.
    pub fn read_link(&self, path: &FsPath) -> (r: Result<FsPath>)
        ensures
            call_ensures(F::read_link, (&self.target(), path), r),
    {
        self.filesystem.read_link(path)
    }
}

/// Lifecycle state for a mounted read-only volume.
#[derive(Debug, Clone, Copy, PartialEq, Eq, Structural)]
pub enum MountStatus {
    Unmounted,
    Mounting,
    Mounted,
    Unmounting,
    Failed,
}

/// Native host operations: the implementation configures WinFsp as read-only and
/// maps every source mutation to access denied.
pub trait MountHost {
    fn mount(&mut self) -> Result<()>;

    fn unmount(&mut self) -> Result<()>;
}

/// Whether no transition is in flight.
pub open spec fn settled(status: MountStatus) -> bool {
    status != MountStatus::Mounting && status != MountStatus::Unmounting
}

/// What a mount request may do: from `Unmounted` it ends `Mounted` on success and
/// `Failed` on a host failure; in any other state it is refused and nothing
/// changes.
pub open spec fn mount_allows(before: MountStatus, after: MountStatus, succeeded: bool, host_untouched: bool) -> bool {
    if before == MountStatus::Unmounted {
        (succeeded && after == MountStatus::Mounted) || (!succeeded && after == MountStatus::Failed)
    } else {
        !succeeded && after == before && host_untouched
    }
}

/// What an unmount request may do: from `Mounted` it ends `Unmounted` on success
/// and stays `Mounted` on a host failure; in any other state it is refused and
/// nothing changes.
pub open spec fn unmount_allows(before: MountStatus, after: MountStatus, succeeded: bool, host_untouched: bool) -> bool {
    if before == MountStatus::Mounted {
        (succeeded && after == MountStatus::Unmounted) || (!succeeded && after == MountStatus::Mounted)
    } else {
        !succeeded && after == before && host_untouched
    }
}

/// What a shutdown may do: unmount a mounted volume, succeed at once when nothing
/// is mounted, and refuse in any other state.
pub open spec fn shutdown_allows(before: MountStatus, after: MountStatus, succeeded: bool, host_untouched: bool) -> bool {
    if before == MountStatus::Mounted {
        unmount_allows(before, after, succeeded, host_untouched)
    } else if before == MountStatus::Unmounted {
        succeeded && after == MountStatus::Unmounted && host_untouched
    } else {
        !succeeded && after == before && host_untouched
    }
}

/// Owns mount lifecycle transitions without coupling the core to WinFsp types.
pub struct MountManager<H: MountHost> {
    host: H,
    status: MountStatus,
}

fn lifecycle_error(message: &str) -> (e: Error)
    ensures
        e.kind() == ErrorCategory::PermissionDenied,
{
    Error::new(ErrorCategory::PermissionDenied, message)
}

impl<H: MountHost> MountManager<H> {
    /// The current lifecycle state.
    pub closed spec fn state(&self) -> MountStatus {
        self.status
    }

    /// The host, as the manager holds it.
    pub closed spec fn host_state(&self) -> H {
        self.host
    }

    pub fn new(host: H) -> (m: Self)
        ensures
            m.state() == MountStatus::Unmounted,
            m.host_state() == host,
    {
        MountManager { host, status: MountStatus::Unmounted }
    }

    pub fn status(&self) -> (s: MountStatus)
        ensures
            s == self.state(),
    {
        self.status
    }

    /// The host, for inspection.
    pub fn host(&self) -> (h: &H)
        ensures
            *h == self.host_state(),
    {
        &self.host
    }

    /// Mounts an unmounted volume. A host failure leaves the manager `Failed`;
    /// a request in any other state is refused without touching the host.
    pub fn mount(&mut self) -> (r: Result<()>)
        ensures
            mount_allows(
                old(self).state(),
                final(self).state(),
                r is Ok,
                final(self).host_state() == old(self).host_state(),
            ),
            old(self).state() != MountStatus::Unmounted ==> (r matches Err(e) && e.kind()
                == ErrorCategory::PermissionDenied),
            old(self).state() == MountStatus::Unmounted ==> exists|o: &mut H|
                #[trigger] call_ensures(H::mount, (o,), r) && *o == old(self).host_state() && *final(o)
                    == final(self).host_state(),
    {
        if self.status != MountStatus::Unmounted {
            return Err(lifecycle_error("mount request is invalid in the current lifecycle state"));
        }
        self.status = MountStatus::Mounting;
        let r = self.host.mount();
        assert(exists|o: &mut H|
            #[trigger] call_ensures(H::mount, (o,), r) && *o == old(self).host_state() && *final(o)
                == self.host);
        if r.is_ok() {
            self.status = MountStatus::Mounted;
        } else {
            self.status = MountStatus::Failed;
        }
        r
    }

    /// Unmounts a mounted volume. A host failure keeps the manager `Mounted` so
    /// that the teardown can be retried; a request in any other state is refused
    /// without touching the host.
    pub fn unmount(&mut self) -> (r: Result<()>)
        ensures
            unmount_allows(
                old(self).state(),
                final(self).state(),
                r is Ok,
                final(self).host_state() == old(self).host_state(),
            ),
            old(self).state() != MountStatus::Mounted ==> (r matches Err(e) && e.kind()
                == ErrorCategory::PermissionDenied),
            old(self).state() == MountStatus::Mounted ==> exists|o: &mut H|
                #[trigger] call_ensures(H::unmount, (o,), r) && *o == old(self).host_state() && *final(o)
                    == final(self).host_state(),
    {
        if self.status != MountStatus::Mounted {
            return Err(
                lifecycle_error("unmount request is invalid in the current lifecycle state"),
            );
        }
        self.status = MountStatus::Unmounting;
        let r = self.host.unmount();
        assert(exists|o: &mut H|
            #[trigger] call_ensures(H::unmount, (o,), r) && *o == old(self).host_state() && *final(o)
                == self.host);
        if r.is_ok() {
            self.status = MountStatus::Unmounted;
        } else {
            self.status = MountStatus::Mounted;
        }
        r
    }

    /// Cleans up an owned mount during orderly shutdown. An unmounted manager is
    /// left as it is; a manager in a transitional or failed state is refused.
    pub fn shutdown(&mut self) -> (r: Result<()>)
        ensures
            shutdown_allows(
                old(self).state(),
                final(self).state(),
                r is Ok,
                final(self).host_state() == old(self).host_state(),
            ),
            old(self).state() != MountStatus::Mounted && old(self).state()
                != MountStatus::Unmounted ==> (r matches Err(e) && e.kind()
                == ErrorCategory::PermissionDenied),
            old(self).state() == MountStatus::Mounted ==> exists|o: &mut H|
                #[trigger] call_ensures(H::unmount, (o,), r) && *o == old(self).host_state() && *final(o)
                    == final(self).host_state(),
    {
        match self.status {
            MountStatus::Mounted => self.unmount(),
            MountStatus::Unmounted => Ok(()),
            _ => Err(
                lifecycle_error("shutdown cleanup is invalid in the current lifecycle state"),
            ),
        }
    }
}

/// No request leaves a manager in a transitional state: from a settled state,
/// `mount`, `unmount` and `shutdown` each end settled, whatever the host did.
pub proof fn lemma_requests_end_settled(
    before: MountStatus,
    after: MountStatus,
    succeeded: bool,
    host_untouched: bool,
)
    requires
        settled(before),
        mount_allows(before, after, succeeded, host_untouched) || unmount_allows(
            before,
            after,
            succeeded,
            host_untouched,
        ) || shutdown_allows(before, after, succeeded, host_untouched),
    ensures
        settled(after),
{
}

/// After a successful shutdown, another shutdown succeeds without touching the
/// host and leaves the manager unmounted.
pub proof fn lemma_shutdown_is_idempotent(
    first: MountStatus,
    second: MountStatus,
    third: MountStatus,
    succeeded: bool,
    host_untouched: bool,
)
    requires
        shutdown_allows(first, second, true, true) || shutdown_allows(first, second, true, false),
        shutdown_allows(second, third, succeeded, host_untouched),
    ensures
        succeeded,
        host_untouched,
        third == MountStatus::Unmounted,
{
}

/// A successful mount followed by a successful unmount returns the manager to
/// where it started.
pub proof fn lemma_mount_then_unmount_restores(
    first: MountStatus,
    second: MountStatus,
    third: MountStatus,
    mount_host: bool,
    unmount_host: bool,
)
    requires
        mount_allows(first, second, true, mount_host),
        unmount_allows(second, third, true, unmount_host),
    ensures
        first == MountStatus::Unmounted,
        third == first,
{
}


/// Windows attribute of an ordinary file.
pub const FILE_ATTRIBUTE_NORMAL: u32 = 0x80;

/// Windows attribute of a directory.
pub const FILE_ATTRIBUTE_DIRECTORY: u32 = 0x10;

/// Windows attribute of a reparse point (how symbolic links are shown).
pub const FILE_ATTRIBUTE_REPARSE_POINT: u32 = 0x400;

/// Whether a directory entry is one of the navigation names `.` and `..`.
pub open spec fn is_navigation_name(name: Seq<char>) -> bool {
    name == seq!['.'] || name == seq!['.', '.']
}

/// A directory node with no size, permissions or owner.
pub open spec fn navigation_metadata() -> NodeMetadata {
    NodeMetadata { kind: FileKind::Directory, size: 0, permissions: 0, uid: 0, gid: 0 }
}

/// The entries of a listing other than `.` and `..`, in order.
pub open spec fn without_navigation(entries: Seq<DirectoryEntry>) -> Seq<DirectoryEntry> {
    entries.filter(keeps_entry())
}

/// The predicate that keeps every entry but `.` and `..`.
pub open spec fn keeps_entry() -> spec_fn(DirectoryEntry) -> bool {
    |e: DirectoryEntry| !is_navigation_name(e.name@)
}

fn navigation_entry(name: &str) -> (e: DirectoryEntry)
    ensures
        e.name@ == name@,
        e.metadata == navigation_metadata(),
{
    DirectoryEntry {
        name: name.to_owned(),
        metadata: NodeMetadata { kind: FileKind::Directory, size: 0, permissions: 0, uid: 0, gid: 0 },
    }
}

/// Prepends the `.` and `..` entries that Windows expects to a listing, dropping
/// any that the filesystem reported itself.
pub fn with_navigation_entries(entries: Vec<DirectoryEntry>) -> (r: Vec<DirectoryEntry>)
    ensures
        r@.len() >= 2,
        r@[0].name@ == seq!['.'] && r@[0].metadata == navigation_metadata(),
        r@[1].name@ == seq!['.', '.'] && r@[1].metadata == navigation_metadata(),
        r@.skip(2) == without_navigation(entries@),
{
    proof {
        reveal_strlit(".");
        reveal_strlit("..");
    }
    let mut result: Vec<DirectoryEntry> = Vec::new();
    result.push(navigation_entry("."));
    result.push(navigation_entry(".."));
    let mut i: usize = 0;
    while i < entries.len()
        invariant
            i <= entries@.len(),
            result@.len() >= 2,
            result@[0].name@ == seq!['.'] && result@[0].metadata == navigation_metadata(),
            result@[1].name@ == seq!['.', '.'] && result@[1].metadata == navigation_metadata(),
            result@.skip(2) == without_navigation(entries@.take(i as int)),
        decreases entries@.len() - i,
    {
        let ghost before = result@;
        assert(entries@.take(i + 1).drop_last() =~= entries@.take(i as int));
        proof {
            reveal_strlit(".");
            reveal_strlit("..");
        }
        let name = entries[i].name.as_str();
        let dot = str_eq(name, ".");
        let dot_dot = str_eq(name, "..");
        assert(".."@ =~= seq!['.', '.']);
        assert("."@ =~= seq!['.']);
        if !dot && !dot_dot {
            result.push(entries[i].duplicate());
            assert(result@.skip(2) =~= before.skip(2).push(entries@[i as int]));
        }
        proof {
            reveal(Seq::filter);
            assert(entries@.take(i + 1).last() == entries@[i as int]);
        }
        i = i + 1;
    }
    assert(entries@.take(entries@.len() as int) =~= entries@);
    result
}

/// The WinFsp callback context: every request goes through a read-only dispatcher.
pub struct ReadOnlyContext<F> {
    dispatcher: ReadOnlyDispatcher<F>,
}

impl<F: ReadOnlyFilesystem> ReadOnlyContext<F> {
    /// The filesystem requests are forwarded to.
    pub closed spec fn target(&self) -> F {
        self.dispatcher.filesystem
    }

    pub fn new(filesystem: F) -> (c: Self)
        ensures
            c.target() == filesystem,
    {
        ReadOnlyContext { dispatcher: ReadOnlyDispatcher::new(filesystem) }
    }

    /// The Windows attributes of a node: directories and symbolic links are marked,
    /// everything else is an ordinary file.
    pub fn attributes(metadata: NodeMetadata) -> (a: u32)
        ensures
            a == match metadata.kind {
                FileKind::Directory => FILE_ATTRIBUTE_DIRECTORY,
                FileKind::Symlink => FILE_ATTRIBUTE_REPARSE_POINT,
                _ => FILE_ATTRIBUTE_NORMAL,
            },
    {
        match metadata.kind {
            FileKind::Directory => FILE_ATTRIBUTE_DIRECTORY,
            FileKind::Symlink => FILE_ATTRIBUTE_REPARSE_POINT,
            _ => FILE_ATTRIBUTE_NORMAL,
        }
    }

    /// The listing of `path` with the navigation entries Windows expects first.
    pub fn directory_entries(&self, path: &FsPath) -> (r: Result<Vec<DirectoryEntry>>)
        ensures
            r matches Ok(v) ==> v@.len() >= 2 && v@[0].name@ == seq!['.'] && v@[1].name@ == seq![
                '.',
                '.',
            ] && forall|j: int| 2 <= j < v@.len() ==> !is_navigation_name(#[trigger] v@[j].name@),
        exists|listed: Result<Vec<DirectoryEntry>>|
            #[trigger] call_ensures(F::read_dir, (&self.target(), path), listed) && match listed {
                Err(e) => r == Err::<Vec<DirectoryEntry>, Error>(e),
                Ok(entries) => r matches Ok(v) && v@[0].metadata == navigation_metadata()
                    && v@[1].metadata == navigation_metadata() && v@.skip(2) == without_navigation(
                    entries@,
                ),
            },
    {
        let listed = self.dispatcher.read_dir(path);
        let entries = match listed {
            Ok(entries) => entries,
            Err(e) => return Err(e),
        };
        let ghost listed_entries = entries@;
        let r = with_navigation_entries(entries);
        proof {
            let rest = r@.skip(2);
            assert forall|j: int| 2 <= j < r@.len() implies !is_navigation_name(
                #[trigger] r@[j].name@,
            ) by {
                assert(r@[j] == rest[j - 2]);
                entries@.lemma_filter_pred(keeps_entry(), j - 2);
            }
        }
        Ok(r)
    }
}

/// Win32 error for a refused request.
pub const ERROR_ACCESS_DENIED: u32 = 5;

/// Win32 error for a path that does not exist.
pub const ERROR_FILE_NOT_FOUND: u32 = 2;

/// Win32 error for any other failed request.
pub const ERROR_INVALID_PARAMETER: u32 = 87;

/// The Win32 error that a failure of a category is reported to Windows as.
pub open spec fn win32_code(category: ErrorCategory) -> u32 {
    match category {
        ErrorCategory::PermissionDenied => ERROR_ACCESS_DENIED,
        ErrorCategory::StorageAccess => ERROR_FILE_NOT_FOUND,
        _ => ERROR_INVALID_PARAMETER,
    }
}

/// The Win32 error that a failure is reported to Windows as.
pub fn win32_error_code(error: &Error) -> (code: u32)
    ensures
        code == win32_code(error.kind()),
{
    match error.category() {
        ErrorCategory::PermissionDenied => ERROR_ACCESS_DENIED,
        ErrorCategory::StorageAccess => ERROR_FILE_NOT_FOUND,
        _ => ERROR_INVALID_PARAMETER,
    }
}

/// Every `\` of a Windows file name read as `/`.
pub open spec fn forward_slashes(name: Seq<char>) -> Seq<char>
    decreases name.len(),
{
    if name.len() == 0 {
        Seq::empty()
    } else {
        forward_slashes(name.drop_last()).push(
            if name.last() == '\\' {
                '/'
            } else {
                name.last()
            },
        )
    }
}

/// A Windows file name as a path inside the volume: separators read as `/`, and
/// rooted where it is not.
pub open spec fn volume_path_of(name: Seq<char>) -> Seq<char> {
    let forward = forward_slashes(name);
    if forward.len() > 0 && forward[0] == '/' {
        forward
    } else {
        seq!['/'] + forward
    }
}

/// The path inside the volume that a Windows file name names.
pub fn windows_path(file_name: &str) -> (r: Result<FsPath>)
    ensures
        r is Ok <==> spec_normalize(volume_path_of(file_name@)) is Some,
        r matches Ok(p) ==> Some(p@) == spec_normalize(volume_path_of(file_name@)),
        r matches Err(e) ==> e.kind() == ErrorCategory::InvalidImage && e.text()
            == path_error_text(volume_path_of(file_name@)),
{
    let chars = chars_of(file_name);
    let mut forward = String::new();
    let mut i: usize = 0;
    while i < chars.len()
        invariant
            i <= chars@.len(),
            chars@ == file_name@,
            forward@ == forward_slashes(file_name@.take(i as int)),
        decreases chars@.len() - i,
    {
        assert(file_name@.take(i + 1).drop_last() =~= file_name@.take(i as int));
        let c = chars[i];
        if c == '\\' {
            push_char(&mut forward, '/');
        } else {
            push_char(&mut forward, c);
        }
        i = i + 1;
    }
    assert(file_name@.take(chars@.len() as int) =~= file_name@);
    let forward_chars = chars_of(forward.as_str());
    if forward_chars.len() > 0 && forward_chars[0] == '/' {
        FsPath::parse(forward.as_str())
    } else {
        let mut rooted = String::new();
        push_char(&mut rooted, '/');
        rooted.append(forward.as_str());
        assert(rooted@ =~= seq!['/'] + forward@);
        FsPath::parse(rooted.as_str())
    }
}

/// The label a mounted volume shows: the filesystem's label, else its type.
pub fn volume_label(info: &FilesystemInfo) -> (r: &str)
    ensures
        r@ == match info.label {
            Some(label) => label@,
            None => info.filesystem_type@,
        },
{
    match &info.label {
        Some(label) => label.as_str(),
        None => info.filesystem_type.as_str(),
    }
}

/// The attributes, size and allocation size Windows is told of a node.
pub fn file_info_fields(metadata: NodeMetadata) -> (r: (u32, u64, u64))
    ensures
        r.0 == match metadata.kind {
            FileKind::Directory => FILE_ATTRIBUTE_DIRECTORY,
            FileKind::Symlink => FILE_ATTRIBUTE_REPARSE_POINT,
            _ => FILE_ATTRIBUTE_NORMAL,
        },
        r.1 == metadata.size,
        r.2 == metadata.size,
{
    let attributes = match metadata.kind {
        FileKind::Directory => FILE_ATTRIBUTE_DIRECTORY,
        FileKind::Symlink => FILE_ATTRIBUTE_REPARSE_POINT,
        _ => FILE_ATTRIBUTE_NORMAL,
    };
    (attributes, metadata.size, metadata.size)
}

/// The operations of a native file-system host: start and stop its dispatcher,
/// attach it to a mount point and detach it.
pub trait VolumeHost {
    fn start(&mut self) -> Result<()>;

    fn mount(&mut self, mount_point: &str) -> Result<()>;

    fn unmount(&mut self);

    fn stop(&mut self);
}

/// A native host mounted at one mount point, started at most once at a time.
pub struct NativeMountHost<V> {
    host: V,
    mount_point: String,
    started: bool,
}

impl<V: VolumeHost> NativeMountHost<V> {
    /// Whether the host is started and mounted.
    pub closed spec fn is_started(&self) -> bool {
        self.started
    }

    /// The mount point the host attaches to.
    pub closed spec fn point(&self) -> Seq<char> {
        self.mount_point@
    }

    /// The native host this mounts through.
    pub closed spec fn volume_host(&self) -> V {
        self.host
    }

    /// A stopped host that will mount at `mount_point`.
    pub fn new(host: V, mount_point: String) -> (r: Self)
        ensures
            !r.is_started(),
            r.point() == mount_point@,
    {
        NativeMountHost { host, mount_point, started: false }
    }
}

impl<V: VolumeHost> MountHost for NativeMountHost<V> {
    /// Starts the host and mounts it; a host that fails to mount is stopped again.
    fn mount(&mut self) -> (r: Result<()>)
        ensures
            old(self).is_started() ==> r is Err && final(self).is_started(),
            !old(self).is_started() ==> (r is Ok <==> final(self).is_started()),
            final(self).point() == old(self).point(),
            r matches Err(e) ==> e.kind() == ErrorCategory::WinFspFailure,
            old(self).is_started() ==> final(self).volume_host() == old(self).volume_host(),
            !old(self).is_started() ==> exists|o: &mut V, started: Result<()>|
                *o == old(self).volume_host() && #[trigger] call_ensures(V::start, (o,), started)
                    && match started {
                    Err(_) => r is Err && final(self).volume_host() == *final(o),
                    Ok(_) => exists|m: &mut V, at: &str, mounted: Result<()>|
                        *m == *final(o) && at@ == old(self).point() && #[trigger] call_ensures(
                            V::mount,
                            (m, at),
                            mounted,
                        ) && match mounted {
                            Ok(_) => r is Ok && final(self).volume_host() == *final(m),
                            Err(_) => r is Err && exists|t: &mut V|
                                *t == *final(m) && #[trigger] call_ensures(V::stop, (t,), ())
                                    && final(self).volume_host() == *final(t),
                        },
                },
    {
        if self.started {
            return Err(Error::new(ErrorCategory::WinFspFailure, "WinFsp host is already started"));
        }
        let started = self.host.start();
        let ghost after_start = self.host;
        assert(exists|o: &mut V|
            *o == old(self).volume_host() && *final(o) == after_start && #[trigger] call_ensures(
                V::start,
                (o,),
                started,
            ));
        match started {
            Ok(()) => {},
            Err(error) => return Err(Error::with_source(
                ErrorCategory::WinFspFailure,
                "WinFsp mount operation failed",
                error.to_string().as_str(),
            )),
        }
        self.started = true;
        let point = self.mount_point.as_str();
        let mounted = self.host.mount(point);
        let ghost after_mount = self.host;
        assert(exists|m: &mut V|
            *m == after_start && *final(m) == after_mount && #[trigger] call_ensures(
                V::mount,
                (m, point),
                mounted,
            ));
        match mounted {
            Ok(()) => Ok(()),
            Err(error) => {
                self.host.stop();
                assert(exists|t: &mut V|
                    *t == after_mount && *final(t) == self.host && #[trigger] call_ensures(
                        V::stop,
                        (t,),
                        (),
                    ));
                self.started = false;
                Err(Error::with_source(
                    ErrorCategory::WinFspFailure,
                    "WinFsp mount operation failed",
                    error.to_string().as_str(),
                ))
            },
        }
    }

    /// Unmounts and stops a started host.
    fn unmount(&mut self) -> (r: Result<()>)
        ensures
            !old(self).is_started() ==> r is Err,
            old(self).is_started() ==> r is Ok,
            !final(self).is_started(),
            final(self).point() == old(self).point(),
            !old(self).is_started() ==> final(self).volume_host() == old(self).volume_host(),
            old(self).is_started() ==> exists|u: &mut V, t: &mut V|
                *u == old(self).volume_host() && #[trigger] call_ensures(V::unmount, (u,), ()) && *t
                    == *final(u) && #[trigger] call_ensures(V::stop, (t,), ()) && final(self).volume_host()
                    == *final(t),
    {
        if !self.started {
            return Err(Error::new(ErrorCategory::WinFspFailure, "WinFsp host is not started"));
        }
        self.host.unmount();
        let ghost after_unmount = self.host;
        assert(exists|u: &mut V|
            *u == old(self).volume_host() && *final(u) == after_unmount && #[trigger] call_ensures(
                V::unmount,
                (u,),
                (),
            ));
        self.host.stop();
        assert(exists|t: &mut V|
            *t == after_unmount && *final(t) == self.host && #[trigger] call_ensures(V::stop, (t,), ()));
        self.started = false;
        Ok(())
    }
}

} // verus!
