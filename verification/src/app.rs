use vstd::prelude::*;

use crate::error::{Error, ErrorCategory, Result};
use crate::filesystem::FileKind;

verus! {

/// Identifies one source row.
#[derive(Debug, Clone, Copy, PartialEq, Eq, Hash, Structural)]
pub struct SourceId(pub u64);

/// Where a source comes from.
#[derive(Debug, Clone, Copy, PartialEq, Eq, Structural)]
pub enum SourceKind {
    Image,
    PhysicalDisk,
    Partition,
}

/// The state of a source row.
#[derive(Debug, Clone, Copy, PartialEq, Eq, Structural)]
pub enum SourceStatus {
    Detected,
    Compatible,
    Incompatible,
    Mounted,
    Error,
}

/// One source as the user interface shows it.
#[derive(Debug, Clone, PartialEq, Eq)]
pub struct SourceViewModel {
    pub id: SourceId,
    pub kind: SourceKind,
    pub display_name: String,
    pub source_description: String,
    pub source_path: String,
    pub partition_range: Option<(u64, u64)>,
    pub physical_disk_index: Option<u32>,
    pub filesystem_type: Option<String>,
    pub label: Option<String>,
    pub uuid: Option<String>,
    pub size_bytes: Option<u64>,
    pub status: SourceStatus,
    pub mount_point: Option<String>,
    pub read_only: bool,
}

/// Whether a source may be mounted: it is read-only, compatible and not mounted.
pub open spec fn mountable(source: SourceViewModel) -> bool {
    source.read_only && source.status == SourceStatus::Compatible && source.mount_point is None
}

/// Whether a source may be unmounted: it is mounted at some mount point.
pub open spec fn unmountable(source: SourceViewModel) -> bool {
    source.status == SourceStatus::Mounted && source.mount_point is Some
}

impl SourceViewModel {
    pub fn can_mount(&self) -> (r: bool)
        ensures
            r == mountable(*self),
    {
        self.read_only && self.status == SourceStatus::Compatible && self.mount_point.is_none()
    }

    pub fn can_unmount(&self) -> (r: bool)
        ensures
            r == unmountable(*self),
    {
        self.status == SourceStatus::Mounted && self.mount_point.is_some()
    }
}

/// Commands the user interface issues.
#[derive(Debug, Clone, Copy, PartialEq, Eq, Structural)]
pub enum AppCommand {
    Refresh,
    OpenImage,
    Mount(SourceId),
    Unmount(SourceId),
    OpenInExplorer(SourceId),
    ShowDetails(SourceId),
}

/// The index of the first source with `id`, if any.
pub open spec fn find_source(sources: Seq<SourceViewModel>, id: SourceId) -> Option<int>
    decreases sources.len(),
{
    if sources.len() == 0 {
        None
    } else if sources[0].id == id {
        Some(0)
    } else {
        match find_source(sources.drop_first(), id) {
            None => None,
            Some(k) => Some(k + 1),
        }
    }
}

/// `find_source` names the first match.
pub proof fn lemma_find_source(sources: Seq<SourceViewModel>, id: SourceId)
    ensures
        find_source(sources, id) matches Some(k) ==> 0 <= k < sources.len() && sources[k].id == id
            && forall|j: int| 0 <= j < k ==> sources[j].id != id,
        find_source(sources, id) is None ==> forall|j: int|
            0 <= j < sources.len() ==> sources[j].id != id,
    decreases sources.len(),
{
    if sources.len() > 0 && sources[0].id != id {
        lemma_find_source(sources.drop_first(), id);
        assert forall|j: int| 1 <= j < sources.len() implies sources[j] == sources.drop_first()[j
            - 1] by {}
    }
}

/// The rows, the busy flag and the status message of the application.
#[derive(Debug, Clone, PartialEq, Eq)]
pub struct AppModel {
    sources: Vec<SourceViewModel>,
    busy: bool,
    message: Option<String>,
}

impl AppModel {
    /// The rows.
    pub closed spec fn rows(&self) -> Seq<SourceViewModel> {
        self.sources@
    }

    /// Whether an operation is in progress.
    pub closed spec fn is_busy(&self) -> bool {
        self.busy
    }

    /// The status message.
    pub closed spec fn status_message(&self) -> Option<Seq<char>> {
        match self.message {
            Some(m) => Some(m@),
            None => None,
        }
    }

    /// An empty model.
    pub fn new() -> (m: Self)
        ensures
            m.rows() == Seq::<SourceViewModel>::empty(),
            !m.is_busy(),
            m.status_message() is None,
    {
        AppModel { sources: Vec::new(), busy: false, message: None }
    }

    pub fn sources(&self) -> (s: &[SourceViewModel])
        ensures
            s@ == self.rows(),
    {
        self.sources.as_slice()
    }

    pub fn busy(&self) -> (b: bool)
        ensures
            b == self.is_busy(),
    {
        self.busy
    }

    pub fn message(&self) -> (m: Option<&str>)
        ensures
            m matches Some(s) ==> self.status_message() == Some(s@),
            m is None ==> self.status_message() is None,
    {
        match &self.message {
            Some(s) => Some(s.as_str()),
            None => None,
        }
    }

    pub fn replace_sources(&mut self, sources: Vec<SourceViewModel>)
        ensures
            final(self).rows() == sources@,
            final(self).is_busy() == old(self).is_busy(),
            final(self).status_message() == old(self).status_message(),
    {
        self.sources = sources;
    }

    pub fn set_busy(&mut self, busy: bool)
        ensures
            final(self).rows() == old(self).rows(),
            final(self).is_busy() == busy,
            final(self).status_message() == old(self).status_message(),
    {
        self.busy = busy;
    }

    pub fn set_message(&mut self, message: Option<String>)
        ensures
            final(self).rows() == old(self).rows(),
            final(self).is_busy() == old(self).is_busy(),
            final(self).status_message() == match message {
                Some(m) => Some(m@),
                None => None::<Seq<char>>,
            },
    {
        self.message = message;
    }

    fn position(&self, id: SourceId) -> (r: Option<usize>)
        ensures
            r matches Some(i) ==> find_source(self.rows(), id) == Some(i as int),
            r is None ==> find_source(self.rows(), id) is None,
    {
        proof {
            lemma_find_source(self.rows(), id);
        }
        let mut i: usize = 0;
        while i < self.sources.len()
            invariant
                i <= self.sources@.len(),
                forall|j: int| 0 <= j < i ==> self.sources@[j].id != id,
            decreases self.sources@.len() - i,
        {
            if self.sources[i].id == id {
                proof {
                    lemma_find_source(self.rows(), id);
                }
                return Some(i);
            }
            i = i + 1;
        }
        None
    }

    /// The first row with `id`, for in-place changes.
    pub fn source_mut(&mut self, id: SourceId) -> (r: Option<&mut SourceViewModel>)
        ensures
            match find_source(old(self).rows(), id) {
                None => r is None && *final(self) == *old(self),
                Some(k) => r matches Some(s) && *s == old(self).rows()[k] && final(self).rows()
                    == old(self).rows().update(k, *final(s)) && final(self).is_busy()
                    == old(self).is_busy() && final(self).status_message() == old(
                    self,
                ).status_message(),
            },
    {
        proof {
            lemma_find_source(self.rows(), id);
        }
        match self.position(id) {
            None => None,
            Some(i) => Some(&mut self.sources[i]),
        }
    }
}

impl Default for AppModel {
    fn default() -> (m: Self)
        ensures
            m.rows() == Seq::<SourceViewModel>::empty(),
            !m.is_busy(),
            m.status_message() is None,
    {
        AppModel::new()
    }
}

/// Converts filesystem metadata into UI-safe display information.
pub fn display_kind(kind: FileKind) -> (s: &'static str)
    ensures
        s@ == match kind {
            FileKind::Regular => "File"@,
            FileKind::Directory => "Folder"@,
            FileKind::Symlink => "Symbolic link"@,
            FileKind::Other => "Special file"@,
        },
{
    match kind {
        FileKind::Regular => "File",
        FileKind::Directory => "Folder",
        FileKind::Symlink => "Symbolic link",
        FileKind::Other => "Special file",
    }
}


/// Enumerates sources and probes image files.
pub trait SourceProvider {
    fn refresh(&mut self) -> Result<Vec<SourceViewModel>>;

    fn open_image(&mut self, path: &str) -> Result<SourceViewModel>;
}

/// Mounts sources read-only and shows mounted volumes.
pub trait MountService {
    fn mount(&mut self, source: &SourceViewModel) -> Result<String>;

    fn unmount(&mut self, source: &SourceViewModel) -> Result<()>;

    fn open_in_explorer(&mut self, mount_point: &str) -> Result<()>;
}

/// `row` mounted read-only at `point`.
pub open spec fn mounted_at(row: SourceViewModel, point: String) -> SourceViewModel {
    SourceViewModel { status: SourceStatus::Mounted, mount_point: Some(point), read_only: true, ..row }
}

/// `row` after a completed unmount.
pub open spec fn unmounted(row: SourceViewModel) -> SourceViewModel {
    SourceViewModel { status: SourceStatus::Compatible, mount_point: None, read_only: true, ..row }
}

/// The message shown after a failed operation.
pub open spec fn failure_message() -> Seq<char> {
    "Operation failed"@
}

/// Unmounting a freshly mounted source restores the row it was mounted from.
pub proof fn lemma_unmount_undoes_mount(row: SourceViewModel, point: String)
    requires
        mountable(row),
    ensures
        unmounted(mounted_at(row, point)) == row,
        unmountable(mounted_at(row, point)),
        mountable(unmounted(mounted_at(row, point))),
{
}

/// The same on a whole model: mounting row `k` and then unmounting it leaves the
/// rows as they were.
pub proof fn lemma_mount_round_trip(rows: Seq<SourceViewModel>, k: int, point: String)
    requires
        0 <= k < rows.len(),
        mountable(rows[k]),
    ensures
        rows.update(k, mounted_at(rows[k], point)).update(
            k,
            unmounted(rows.update(k, mounted_at(rows[k], point))[k]),
        ) == rows,
{
    assert(rows.update(k, mounted_at(rows[k], point)).update(
        k,
        unmounted(rows.update(k, mounted_at(rows[k], point))[k]),
    ) =~= rows);
}

/// Routes user commands to a source provider and a mount service and keeps the
/// model in step with their results.
pub struct AppController<P, M> {
    model: AppModel,
    provider: P,
    mount_service: M,
}

fn command_error(message: &str) -> (e: Error)
    ensures
        e.kind() == ErrorCategory::Internal,
{
    Error::new(ErrorCategory::Internal, message)
}

impl<P: SourceProvider, M: MountService> AppController<P, M> {
    /// The model the controller maintains.
    pub closed spec fn state(&self) -> AppModel {
        self.model
    }

    /// The source provider, as the controller holds it.
    pub closed spec fn provider_state(&self) -> P {
        self.provider
    }

    /// The mount service, as the controller holds it.
    pub closed spec fn service_state(&self) -> M {
        self.mount_service
    }

    pub fn new(provider: P, mount_service: M) -> (c: Self)
        ensures
            c.state().rows() == Seq::<SourceViewModel>::empty(),
            !c.state().is_busy(),
            c.state().status_message() is None,
    {
        AppController { model: AppModel::new(), provider, mount_service }
    }

    pub fn model(&self) -> (m: &AppModel)
        ensures
            *m == self.state(),
    {
        &self.model
    }

    pub fn model_mut(&mut self) -> (m: &mut AppModel)
        ensures
            *m == old(self).state(),
            final(self).state() == *final(m),
    {
        &mut self.model
    }

    fn finish<T>(&mut self, result: Result<T>) -> (r: Result<T>)
        ensures
            r == result,
            final(self).state().rows() == old(self).state().rows(),
            !final(self).state().is_busy(),
            result is Ok ==> final(self).state().status_message() is None,
            result is Err ==> final(self).state().status_message() == Some(failure_message()),
            final(self).provider_state() == old(self).provider_state(),
            final(self).service_state() == old(self).service_state(),
    {
        self.model.set_busy(false);
        if result.is_ok() {
            self.model.set_message(None);
        } else {
            self.model.set_message(Some(String::from_str("Operation failed")));
        }
        result
    }

    /// Rescans the sources; on success the provider's list replaces the rows.
    pub fn refresh(&mut self) -> (r: Result<()>)
        ensures
            !final(self).state().is_busy(),
            r is Ok ==> final(self).state().status_message() is None,
            r is Err ==> final(self).state().status_message() == Some(failure_message())
                && final(self).state().rows() == old(self).state().rows(),
            final(self).service_state() == old(self).service_state(),
            exists|o: &mut P, res: Result<Vec<SourceViewModel>>|
                #[trigger] call_ensures(P::refresh, (o,), res) && *o == old(self).provider_state()
                    && *final(o) == final(self).provider_state() && match res {
                    Ok(rows) => r is Ok && final(self).state().rows() == rows@,
                    Err(e) => r == Err::<(), Error>(e),
                },
    {
        self.model.set_busy(true);
        self.model.set_message(Some(String::from_str("Scanning sources\u{2026}")));
        let res = self.provider.refresh();
        let ghost listed = res;
        assert(exists|o: &mut P|
            #[trigger] call_ensures(P::refresh, (o,), listed) && *o == old(self).provider_state()
                && *final(o) == self.provider);
        match res {
            Ok(sources) => {
                self.model.replace_sources(sources);
                self.finish(Ok(()))
            },
            Err(error) => self.finish(Err(error)),
        }
    }

    /// Probes an image file; on success its row is appended.
    pub fn open_image(&mut self, path: &str) -> (r: Result<()>)
        ensures
            !final(self).state().is_busy(),
            r is Ok ==> final(self).state().status_message() is None
                && final(self).state().rows().len() == old(self).state().rows().len() + 1
                && final(self).state().rows().drop_last() == old(self).state().rows(),
            r is Err ==> final(self).state().status_message() == Some(failure_message())
                && final(self).state().rows() == old(self).state().rows(),
            final(self).service_state() == old(self).service_state(),
            exists|o: &mut P, res: Result<SourceViewModel>|
                #[trigger] call_ensures(P::open_image, (o, path), res) && *o == old(self).provider_state()
                    && *final(o) == final(self).provider_state() && match res {
                    Ok(row) => r is Ok && final(self).state().rows() == old(self).state().rows().push(row),
                    Err(e) => r == Err::<(), Error>(e),
                },
    {
        self.model.set_busy(true);
        self.model.set_message(Some(String::from_str("Opening image\u{2026}")));
        let res = self.provider.open_image(path);
        let ghost opened = res;
        assert(exists|o: &mut P|
            #[trigger] call_ensures(P::open_image, (o, path), opened) && *o == old(self).provider_state()
                && *final(o) == self.provider);
        match res {
            Ok(source) => {
                let ghost before = self.model.sources@;
                self.model.sources.push(source);
                assert(self.model.sources@.drop_last() =~= before);
                assert(self.model.sources@ =~= before.push(opened->Ok_0));
                self.finish(Ok(()))
            },
            Err(error) => self.finish(Err(error)),
        }
    }

    /// Mounts the first row with `id` read-only, if it is mountable.
    pub fn mount(&mut self, id: SourceId) -> (r: Result<()>)
        ensures
            match find_source(old(self).state().rows(), id) {
                None => r matches Err(e) && e.kind() == ErrorCategory::Internal && final(self).state()
                    == old(self).state() && final(self).service_state() == old(self).service_state(),
                Some(k) => if !mountable(old(self).state().rows()[k]) {
                    r matches Err(e) && e.kind() == ErrorCategory::Internal && final(self).state()
                        == old(self).state() && final(self).service_state() == old(self).service_state()
                } else {
                    &&& !final(self).state().is_busy()
                    &&& r is Ok ==> final(self).state().status_message() is None
                    &&& r is Ok ==> (final(self).state().rows()[k].mount_point matches Some(point)
                        && final(self).state().rows() == old(self).state().rows().update(
                        k,
                        mounted_at(old(self).state().rows()[k], point),
                    ))
                    &&& r is Err ==> final(self).state().status_message() == Some(
                        failure_message(),
                    ) && final(self).state().rows() == old(self).state().rows()
                    &&& exists|o: &mut M, res: Result<String>|
                        #[trigger] call_ensures(M::mount, (o, &old(self).state().rows()[k]), res) && *o
                            == old(self).service_state() && *final(o) == final(self).service_state()
                            && match res {
                            Ok(point) => r is Ok && final(self).state().rows() == old(
                                self,
                            ).state().rows().update(k, mounted_at(old(self).state().rows()[k], point)),
                            Err(e) => r == Err::<(), Error>(e),
                        }
                },
            },
            final(self).provider_state() == old(self).provider_state(),
    {
        proof {
            lemma_find_source(self.model.rows(), id);
        }
        let index = match self.model.position(id) {
            None => return Err(command_error("source was not found")),
            Some(i) => i,
        };
        if !self.model.sources[index].can_mount() {
            return Err(command_error("source is not mountable in its current state"));
        }
        self.model.set_busy(true);
        self.model.set_message(Some(String::from_str("Mounting read-only\u{2026}")));
        let ghost row = self.model.sources@[index as int];
        let result = self.mount_service.mount(&self.model.sources[index]);
        let ghost mounted = result;
        assert(exists|o: &mut M|
            #[trigger] call_ensures(M::mount, (o, &row), mounted) && *o == old(self).service_state()
                && *final(o) == self.mount_service);
        match result {
            Ok(mount_point) => {
                match self.model.source_mut(id) {
                    Some(source) => {
                        source.status = SourceStatus::Mounted;
                        source.mount_point = Some(mount_point);
                        source.read_only = true;
                    },
                    None => {},
                }
                self.finish(Ok(()))
            },
            Err(error) => self.finish(Err(error)),
        }
    }

    /// Unmounts the first row with `id`, if it is mounted.
    pub fn unmount(&mut self, id: SourceId) -> (r: Result<()>)
        ensures
            match find_source(old(self).state().rows(), id) {
                None => r matches Err(e) && e.kind() == ErrorCategory::Internal && final(self).state()
                    == old(self).state() && final(self).service_state() == old(self).service_state(),
                Some(k) => if !unmountable(old(self).state().rows()[k]) {
                    r matches Err(e) && e.kind() == ErrorCategory::Internal && final(self).state()
                        == old(self).state() && final(self).service_state() == old(self).service_state()
                } else {
                    &&& !final(self).state().is_busy()
                    &&& r is Ok ==> final(self).state().status_message() is None
                        && final(self).state().rows() == old(self).state().rows().update(
                        k,
                        unmounted(old(self).state().rows()[k]),
                    )
                    &&& r is Err ==> final(self).state().status_message() == Some(
                        failure_message(),
                    ) && final(self).state().rows() == old(self).state().rows()
                    &&& exists|o: &mut M, res: Result<()>|
                        #[trigger] call_ensures(M::unmount, (o, &old(self).state().rows()[k]), res) && *o
                            == old(self).service_state() && *final(o) == final(self).service_state()
                            && (res is Ok <==> r is Ok) && (res matches Err(e) ==> r == Err::<(), Error>(e))
                },
            },
            final(self).provider_state() == old(self).provider_state(),
    {
        proof {
            lemma_find_source(self.model.rows(), id);
        }
        let index = match self.model.position(id) {
            None => return Err(command_error("source was not found")),
            Some(i) => i,
        };
        if !self.model.sources[index].can_unmount() {
            return Err(command_error("source is not mounted"));
        }
        self.model.set_busy(true);
        self.model.set_message(Some(String::from_str("Unmounting\u{2026}")));
        let ghost row = self.model.sources@[index as int];
        let result = self.mount_service.unmount(&self.model.sources[index]);
        let ghost unmounted_result = result;
        assert(exists|o: &mut M|
            #[trigger] call_ensures(M::unmount, (o, &row), unmounted_result) && *o == old(self).service_state()
                && *final(o) == self.mount_service);
        match result {
            Ok(()) => {
                match self.model.source_mut(id) {
                    Some(source) => {
                        source.status = SourceStatus::Compatible;
                        source.mount_point = None;
                        source.read_only = true;
                    },
                    None => {},
                }
                self.finish(Ok(()))
            },
            Err(error) => self.finish(Err(error)),
        }
    }

    /// Opens the mount point of the first row with `id` in the file manager.
    pub fn open_in_explorer(&mut self, id: SourceId) -> (r: Result<()>)
        ensures
            final(self).state() == old(self).state(),
            find_source(old(self).state().rows(), id) is None ==> (r matches Err(e) && e.kind()
                == ErrorCategory::Internal),
            (find_source(old(self).state().rows(), id) matches Some(k) && old(
                self,
            ).state().rows()[k].mount_point is None) ==> (r matches Err(e) && e.kind()
                == ErrorCategory::Internal),
            final(self).provider_state() == old(self).provider_state(),
            find_source(old(self).state().rows(), id) matches Some(k) ==> (old(
                self,
            ).state().rows()[k].mount_point matches Some(point) ==> exists|o: &mut M, s: &str|
                s@ == point@ && #[trigger] call_ensures(M::open_in_explorer, (o, s), r) && *o == old(
                    self,
                ).service_state() && *final(o) == final(self).service_state()),
            find_source(old(self).state().rows(), id) is None || old(self).state().rows()[find_source(
                old(self).state().rows(),
                id,
            )->Some_0].mount_point is None ==> final(self).service_state() == old(self).service_state(),
    {
        proof {
            lemma_find_source(self.model.rows(), id);
        }
        let index = match self.model.position(id) {
            None => return Err(command_error("source was not found")),
            Some(i) => i,
        };
        match &self.model.sources[index].mount_point {
            None => Err(command_error("source has no mount point")),
            Some(point) => {
                let s = point.as_str();
                let r = self.mount_service.open_in_explorer(s);
                assert(exists|o: &mut M, t: &str|
                    t@ == point@ && #[trigger] call_ensures(M::open_in_explorer, (o, t), r) && *o == old(
                        self,
                    ).service_state() && *final(o) == self.mount_service);
                r
            },
        }
    }
}

} // verus!
