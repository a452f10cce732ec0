use vstd::prelude::*;

use std::collections::HashMap;
use vstd::std_specs::iter::IteratorSpec;
use std::sync::Arc;

use crate::app::{MountService, SourceId, SourceKind, SourceProvider, SourceStatus, SourceViewModel};
use crate::winfsp::{MountHost, MountManager, MountStatus};
use crate::block::{share, BlockGeometry, BlockReader, PartitionReader};
use crate::error::{Error, ErrorCategory, Result};
use crate::filesystem::FilesystemInfo;
use crate::localization::{trim_end, trim_start, trimmed_chars};
use crate::partition::{discover_layout, spec_discover, views, LayoutView, PartitionView, SourceLayout};
use crate::text::{chars_of, decimal, hex_bytes, hex_lower, push_char, push_decimal, str_eq,
    string_from_chars};
use crate::windows::{
    discover_physical_partitions_checked, discover_volume_partitions, DiskDevices, FilesystemProbe,
    PhysicalPartitionInfo, ProbedFilesystem,
};

verus! {

/// Whether `c` separates the parts of a Windows path.
pub open spec fn is_separator(c: char) -> bool {
    c == '/' || c == '\\'
}

/// `path` without trailing separators.
pub open spec fn without_trailing_separators(path: Seq<char>) -> Seq<char>
    decreases path.len(),
{
    if path.len() > 0 && is_separator(path.last()) {
        without_trailing_separators(path.drop_last())
    } else {
        path
    }
}

/// The part of `path` after its last separator.
pub open spec fn last_part(path: Seq<char>) -> Seq<char>
    decreases path.len(),
{
    if path.len() == 0 || is_separator(path.last()) {
        Seq::empty()
    } else {
        last_part(path.drop_last()).push(path.last())
    }
}

/// The name a source file is shown by: the last part of its path, ignoring
/// trailing separators, or the whole path where that part is empty, `.` or `..`.
pub open spec fn display_name_text(path: Seq<char>) -> Seq<char> {
    let name = last_part(without_trailing_separators(path));
    if name.len() == 0 || name == seq!['.'] || name == seq!['.', '.'] {
        path
    } else {
        name
    }
}

/// The name a source file is shown by.
pub fn display_name_of(path: &str) -> (r: String)
    ensures
        r@ == display_name_text(path@),
{
    let chars = chars_of(path);
    let mut end: usize = chars.len();
    assert(path@.subrange(0, end as int) =~= path@);
    while end > 0 && (chars[end - 1] == '/' || chars[end - 1] == '\\')
        invariant
            end <= chars@.len(),
            chars@ == path@,
            without_trailing_separators(path@) == without_trailing_separators(
                path@.subrange(0, end as int),
            ),
        decreases end,
    {
        assert(path@.subrange(0, end as int).drop_last() =~= path@.subrange(0, end - 1));
        end = end - 1;
    }
    let ghost trimmed = path@.subrange(0, end as int);
    assert(without_trailing_separators(path@) == trimmed);
    let mut start: usize = end;
    while start > 0 && chars[start - 1] != '/' && chars[start - 1] != '\\'
        invariant
            start <= end <= chars@.len(),
            chars@ == path@,
            trimmed == path@.subrange(0, end as int),
            last_part(trimmed) == last_part(path@.subrange(0, start as int)) + path@.subrange(
                start as int,
                end as int,
            ),
        decreases start,
    {
        let ghost prefix = path@.subrange(0, start as int);
        assert(prefix.drop_last() =~= path@.subrange(0, start - 1));
        assert(last_part(prefix) == last_part(prefix.drop_last()).push(prefix.last()));
        assert(last_part(path@.subrange(0, start - 1)).push(path@[start - 1]) + path@.subrange(
            start as int,
            end as int,
        ) =~= last_part(path@.subrange(0, start - 1)) + path@.subrange(start - 1, end as int));
        start = start - 1;
    }
    assert(last_part(path@.subrange(0, start as int)) =~= Seq::<char>::empty());
    assert(last_part(trimmed) =~= path@.subrange(start as int, end as int));
    let name = string_from_chars(&chars.as_slice()[start..end]);
    let n = end - start;
    if n == 0 || (n == 1 && chars[start] == '.') || (n == 2 && chars[start] == '.' && chars[start
        + 1] == '.') {
        assert(name@.len() == n);
        assert(n == 1 ==> name@ =~= seq!['.']);
        assert(n == 2 ==> name@ =~= seq!['.', '.']);
        return String::from_str(path);
    }
    assert(name@ != seq!['.'] && name@ != seq!['.', '.']) by {
        if n == 1 {
            assert(name@[0] != '.');
        }
        if n == 2 {
            assert(name@[0] != '.' || name@[1] != '.');
        }
    }
    name
}

/// The lower-case hexadecimal form of a filesystem UUID.
pub open spec fn uuid_text(uuid: Option<[u8; 16]>) -> Option<Seq<char>> {
    match uuid {
        Some(bytes) => Some(crate::text::hex_bytes(bytes@, false)),
        None => None,
    }
}

fn uuid_string(uuid: Option<[u8; 16]>) -> (r: Option<String>)
    ensures
        match r {
            Some(s) => uuid_text(uuid) == Some(s@),
            None => uuid is None,
        },
{
    match uuid {
        Some(bytes) => Some(hex_lower(&bytes)),
        None => None,
    }
}

/// Opens image files read-only.
pub trait ImageFiles {
    type Reader: BlockReader + 'static;

    /// Opens the image at `path`.
    fn open(&self, path: &str) -> Result<Self::Reader>;
}

/// Turns raw image files into source rows, with the filesystem they hold.
pub struct ImageSourceProvider<F, P> {
    next_id: u64,
    files: F,
    prober: P,
}

/// The row of a recognized filesystem in an image file.
pub open spec fn image_row(
    id: u64,
    path: Seq<char>,
    size_bytes: u64,
    description: Seq<char>,
    partition_range: Option<(u64, u64)>,
    info: FilesystemInfo,
    row: SourceViewModel,
) -> bool {
    &&& row.id == SourceId(id)
    &&& row.kind == (if description == path {
        SourceKind::Image
    } else {
        SourceKind::Partition
    })
    &&& row.display_name@ == display_name_text(path)
    &&& row.source_description@ == description
    &&& row.source_path@ == path
    &&& row.partition_range == partition_range
    &&& row.physical_disk_index is None
    &&& row.filesystem_type matches Some(t) && t == info.filesystem_type
    &&& row.label == info.label
    &&& match row.uuid {
        Some(u) => uuid_text(info.uuid) == Some(u@),
        None => info.uuid is None,
    }
    &&& row.size_bytes == Some(size_bytes)
    &&& row.status == SourceStatus::Compatible
    &&& row.mount_point is None
    &&& row.read_only
}

/// The description of partition `number` of the image at `path`.
pub open spec fn partition_description(path: Seq<char>, number: u32) -> Seq<char> {
    path + " (partition "@ + decimal(number as nat) + ")"@
}

impl<F: ImageFiles, P: FilesystemProbe> ImageSourceProvider<F, P> {
    /// The id the next row will get.
    pub closed spec fn next_row_id(&self) -> u64 {
        self.next_id
    }

    /// What this provider opens image files with.
    pub closed spec fn image_files(&self) -> F {
        self.files
    }

    /// What this provider recognizes filesystems with.
    pub closed spec fn probe_tool(&self) -> P {
        self.prober
    }

    /// A provider that opens images through `files` and recognizes filesystems
    /// with `prober`; its first row gets id 1.
    pub fn new(files: F, prober: P) -> (r: Self)
        ensures
            r.next_row_id() == 1,
    {
        ImageSourceProvider { next_id: 1, files, prober }
    }

    /// The row of a recognized filesystem; each row gets the next id, and ids stop
    /// at the largest value.
    pub fn source_from_info(
        &mut self,
        path: &str,
        size_bytes: u64,
        description: String,
        partition_range: Option<(u64, u64)>,
        info: FilesystemInfo,
    ) -> (row: SourceViewModel)
        ensures
            image_row(
                old(self).next_row_id(),
                path@,
                size_bytes,
                description@,
                partition_range,
                info,
                row,
            ),
            final(self).next_row_id() == (if old(self).next_row_id() == u64::MAX {
                u64::MAX
            } else {
                (old(self).next_row_id() + 1) as u64
            }),
    {
        let id = SourceId(self.next_id);
        self.next_id = if self.next_id == u64::MAX {
            u64::MAX
        } else {
            self.next_id + 1
        };
        let display_name = display_name_of(path);
        let kind = if str_eq(description.as_str(), path) {
            SourceKind::Image
        } else {
            SourceKind::Partition
        };
        let uuid = uuid_string(info.uuid);
        SourceViewModel {
            id,
            kind,
            display_name,
            source_description: description,
            source_path: String::from_str(path),
            partition_range,
            physical_disk_index: None,
            filesystem_type: Some(info.filesystem_type),
            label: info.label,
            uuid,
            size_bytes: Some(size_bytes),
            status: SourceStatus::Compatible,
            mount_point: None,
            read_only: true,
        }
    }
}

/// Whether `row` is the row of a filesystem found in partition `p` of the image
/// at `path`.
pub open spec fn partition_row(id: u64, path: Seq<char>, p: PartitionView, row: SourceViewModel) -> bool {
    exists|info: FilesystemInfo|
        #[trigger] image_row(
            id,
            path,
            p.byte_length,
            partition_description(path, p.number),
            Some((p.byte_offset, p.byte_length)),
            info,
            row,
        )
}

/// Whether `row` is a row that opening the image at `path`, whose bytes are
/// `image`, can give: that of the whole image where it has no partition table,
/// else that of one of its partitions.
pub open spec fn image_source_row(id: u64, path: Seq<char>, image: Seq<u8>, row: SourceViewModel) -> bool {
    match spec_discover(image, 512) {
        Some(LayoutView::DirectImage) => exists|info: FilesystemInfo|
            #[trigger] image_row(id, path, image.len() as u64, path, None, info, row),
        Some(LayoutView::Mbr(partitions)) => exists|i: int|
            0 <= i < partitions.len() && #[trigger] partition_row(id, path, partitions[i], row),
        Some(LayoutView::Gpt(partitions)) => exists|i: int|
            0 <= i < partitions.len() && #[trigger] partition_row(id, path, partitions[i], row),
        None => false,
    }
}

/// A row that opening an image gives is a compatible, read-only, unmounted row
/// of that image file.
proof fn lemma_image_source_row_is_compatible(id: u64, path: Seq<char>, row: SourceViewModel)
    requires
        exists|image: Seq<u8>| #[trigger] image_source_row(id, path, image, row),
    ensures
        row.id == SourceId(id) && row.source_path@ == path && row.status == SourceStatus::Compatible
            && row.read_only && row.physical_disk_index is None && row.mount_point is None,
{
    let image = choose|image: Seq<u8>| #[trigger] image_source_row(id, path, image, row);
    match spec_discover(image, 512) {
        Some(LayoutView::DirectImage) => {
            let info = choose|info: FilesystemInfo|
                #[trigger] image_row(id, path, image.len() as u64, path, None, info, row);
        },
        Some(LayoutView::Mbr(partitions)) => {
            let i = choose|i: int| 0 <= i < partitions.len() && #[trigger] partition_row(id, path, partitions[i], row);
            let p = partitions[i];
            let info = choose|info: FilesystemInfo|
                #[trigger] image_row(
                    id,
                    path,
                    p.byte_length,
                    partition_description(path, p.number),
                    Some((p.byte_offset, p.byte_length)),
                    info,
                    row,
                );
        },
        Some(LayoutView::Gpt(partitions)) => {
            let i = choose|i: int| 0 <= i < partitions.len() && #[trigger] partition_row(id, path, partitions[i], row);
            let p = partitions[i];
            let info = choose|info: FilesystemInfo|
                #[trigger] image_row(
                    id,
                    path,
                    p.byte_length,
                    partition_description(path, p.number),
                    Some((p.byte_offset, p.byte_length)),
                    info,
                    row,
                );
        },
        None => {},
    }
}

/// Whether `res` is what probing the `size` bytes from `offset` of the image
/// `reader` reads gives, and whether probing stops there: where a reader cannot
/// be bounded to those bytes, or the probe fails, its error, and probing goes on;
/// a recognized filesystem stops it, with the error of reading the filesystem's
/// details or the row numbered `id` made from them.
pub open spec fn probe_attempt<P: FilesystemProbe, R: BlockReader + 'static>(
    prober: &P,
    reader: Arc<R>,
    id: u64,
    path: Seq<char>,
    description: Seq<char>,
    offset: u64,
    size: u64,
    range: Option<(u64, u64)>,
    res: Result<SourceViewModel>,
    stops: bool,
) -> bool {
    exists|bounded: Result<PartitionReader<R>>|
        #[trigger] call_ensures(PartitionReader::<R>::new, (reader, offset, size), bounded) && match bounded {
            Err(e) => res == Err::<SourceViewModel, Error>(e) && !stops,
            Ok(view) => exists|shared: Arc<PartitionReader<R>>, probed: Result<ProbedFilesystem>|
                *shared == view && #[trigger] call_ensures(P::probe::<R>, (prober, shared), probed)
                    && match probed {
                    Err(e) => res == Err::<SourceViewModel, Error>(e) && !stops,
                    Ok(found) => stops && match found.info {
                        Err(e) => res == Err::<SourceViewModel, Error>(e),
                        Ok(info) => res matches Ok(row) && image_row(id, path, size, description, range, info, row),
                    },
                },
        }
}

/// `probe_attempt` on partition `p` of the image at `path`.
pub open spec fn partition_probe<P: FilesystemProbe, R: BlockReader + 'static>(
    prober: &P,
    reader: Arc<R>,
    id: u64,
    path: Seq<char>,
    p: PartitionView,
    attempt: (Result<SourceViewModel>, bool),
) -> bool {
    probe_attempt::<P, R>(
        prober,
        reader,
        id,
        path,
        partition_description(path, p.number),
        p.byte_offset,
        p.byte_length,
        Some((p.byte_offset, p.byte_length)),
        attempt.0,
        attempt.1,
    )
}

/// Whether `r` is what probing the partitions `parts` in order gives: the
/// attempts made are on a prefix of `parts`, none but the last stops, probing
/// ends early only where one stops, and the outcome is that of the last attempt;
/// with no partition at all it is an `UnsupportedFilesystem` error.
pub open spec fn probed_in_order<P: FilesystemProbe, R: BlockReader + 'static>(
    prober: &P,
    reader: Arc<R>,
    id: u64,
    path: Seq<char>,
    parts: Seq<PartitionView>,
    attempts: Seq<(Result<SourceViewModel>, bool)>,
    r: Result<SourceViewModel>,
) -> bool {
    &&& attempts.len() <= parts.len()
    &&& forall|j: int|
        0 <= j < attempts.len() ==> #[trigger] partition_probe::<P, R>(
            prober,
            reader,
            id,
            path,
            parts[j],
            attempts[j],
        )
    &&& forall|j: int| 0 <= j < attempts.len() - 1 ==> !(#[trigger] attempts[j]).1
    &&& attempts.len() < parts.len() ==> attempts.len() > 0 && attempts.last().1
    &&& attempts.len() > 0 ==> r == attempts.last().0
    &&& attempts.len() == 0 ==> (r matches Err(e) && e.kind() == ErrorCategory::UnsupportedFilesystem)
}

/// Whether some run of attempts on `parts` gives `r`, as `probed_in_order` says.
pub open spec fn probed_first<P: FilesystemProbe, R: BlockReader + 'static>(
    prober: &P,
    reader: Arc<R>,
    id: u64,
    path: Seq<char>,
    parts: Seq<PartitionView>,
    r: Result<SourceViewModel>,
) -> bool {
    exists|attempts: Seq<(Result<SourceViewModel>, bool)>|
        #[trigger] probed_in_order::<P, R>(prober, reader, id, path, parts, attempts, r)
}

/// Whether `r` is what probing the image `reader` reads gives, its row numbered
/// `id`: the error of measuring the image or of finding its layout, else
/// `probe_attempt` on the whole image where it has no partition table, else
/// `probed_first` on its partitions.
pub open spec fn image_probe_outcome<P: FilesystemProbe, R: BlockReader + 'static>(
    prober: &P,
    reader: Arc<R>,
    id: u64,
    path: Seq<char>,
    r: Result<SourceViewModel>,
) -> bool {
    exists|measured: Result<u64>|
        #[trigger] call_ensures(R::len, (&*reader,), measured) && match measured {
            Err(e) => r == Err::<SourceViewModel, Error>(e),
            Ok(size) => exists|geometry: BlockGeometry, found: Result<SourceLayout>|
                geometry.sector_size() == 512 && #[trigger] call_ensures(
                    discover_layout::<R>,
                    (&*reader, geometry),
                    found,
                ) && match found {
                    Err(e) => r == Err::<SourceViewModel, Error>(e),
                    Ok(SourceLayout::DirectImage) => exists|stops: bool|
                        #[trigger] probe_attempt::<P, R>(
                            prober,
                            reader,
                            id,
                            path,
                            path,
                            0,
                            size,
                            None,
                            r,
                            stops,
                        ),
                    Ok(SourceLayout::Mbr { partitions }) => probed_first::<P, R>(
                        prober,
                        reader,
                        id,
                        path,
                        views(partitions@),
                        r,
                    ),
                    Ok(SourceLayout::Gpt { partitions }) => probed_first::<P, R>(
                        prober,
                        reader,
                        id,
                        path,
                        views(partitions@),
                        r,
                    ),
                },
        }
}

impl<F: ImageFiles, P: FilesystemProbe> ImageSourceProvider<F, P> {
    /// Opens the image at `path`, which `reader` reads, and returns the row of its
    /// filesystem: the whole image where it has no partition table, else its first
    /// partition whose filesystem is recognized; where none is, the last
    /// partition's error, or `UnsupportedFilesystem` for a table without
    /// partitions. Only a returned row takes up an id.
    pub fn open_image_source<R: BlockReader + 'static>(&mut self, path: &str, reader: Arc<R>) -> (r:
        Result<SourceViewModel>)
        ensures
            r matches Ok(row) ==> image_source_row(old(self).next_row_id(), path@, (*reader).bytes(), row),
            r is Ok ==> final(self).next_row_id() == (if old(self).next_row_id() == u64::MAX {
                u64::MAX
            } else {
                (old(self).next_row_id() + 1) as u64
            }),
            r is Err ==> final(self).next_row_id() == old(self).next_row_id(),
            (*reader).reliable() && spec_discover((*reader).bytes(), 512) is None ==> (r matches Err(e)
                && e.kind() == ErrorCategory::PartitionTable),
            (*reader).reliable() && spec_discover((*reader).bytes(), 512) == Some(
                LayoutView::Gpt(Seq::empty()),
            ) ==> (r matches Err(e) && e.kind() == ErrorCategory::UnsupportedFilesystem),
            image_probe_outcome::<P, R>(&old(self).probe_tool(), reader, old(self).next_row_id(), path@, r),
    {
        let ghost image = (*reader).bytes();
        let ghost id = self.next_row_id();
        let ghost prober = self.prober;
        assert(prober == old(self).probe_tool());
        let measured = reader.len();
        let ghost measured_result = measured;
        assert(call_ensures(R::len, (&*reader,), measured_result));
        let source_size = match measured {
            Ok(n) => n,
            Err(e) => return Err(e),
        };
        let geometry = BlockGeometry::raw_image_512();
        let found = discover_layout(&*reader, geometry);
        let ghost found_result = found;
        assert(call_ensures(discover_layout::<R>, (&*reader, geometry), found_result));
        let layout = match found {
            Ok(layout) => layout,
            Err(e) => return Err(e),
        };
        let partitions = match layout {
            SourceLayout::DirectImage => {
                let shared = share(&reader);
                let bounded = PartitionReader::new(shared, 0, source_size);
                let ghost bounded_result = bounded;
                assert(call_ensures(PartitionReader::<R>::new, (reader, 0u64, source_size), bounded_result));
                let view = match bounded {
                    Ok(view) => view,
                    Err(e) => {
                        assert(probe_attempt::<P, R>(&prober, reader, id, path@, path@, 0, source_size, None, Err(e), false));
                        assert(probe_attempt::<P, R>(&old(self).probe_tool(), reader, old(self).next_row_id(), path@, path@, 0, source_size, None, Err(e), false));
                        return Err(e);
                    },
                };
                let ghost view_value = view;
                let view = Arc::new(view);
                let ghost view_arc = view;
                let probed = self.prober.probe(view);
                let ghost probed_result = probed;
                assert(*view_arc == view_value);
                assert(call_ensures(P::probe::<R>, (&prober, view_arc), probed_result));
                let found_fs = match probed {
                    Ok(found_fs) => found_fs,
                    Err(e) => {
                        assert(probe_attempt::<P, R>(&prober, reader, id, path@, path@, 0, source_size, None, Err(e), false));
                        assert(probe_attempt::<P, R>(&old(self).probe_tool(), reader, old(self).next_row_id(), path@, path@, 0, source_size, None, Err(e), false));
                        return Err(e);
                    },
                };
                let info = match found_fs.info {
                    Ok(info) => info,
                    Err(e) => {
                        assert(probe_attempt::<P, R>(&prober, reader, id, path@, path@, 0, source_size, None, Err(e), true));
                        assert(probe_attempt::<P, R>(&old(self).probe_tool(), reader, old(self).next_row_id(), path@, path@, 0, source_size, None, Err(e), true));
                        return Err(e);
                    },
                };
                let row = self.source_from_info(path, source_size, String::from_str(path), None, info);
                assert(image_row(id, path@, image.len() as u64, path@, None, info, row));
                assert(probe_attempt::<P, R>(&prober, reader, id, path@, path@, 0, source_size, None, Ok(row), true));
                return Ok(row);
            },
            SourceLayout::Mbr { partitions } => partitions,
            SourceLayout::Gpt { partitions } => partitions,
        };
        let ghost parts = views(partitions@);
        assert(found_result == Ok::<SourceLayout, Error>(SourceLayout::Mbr { partitions })
            || found_result == Ok::<SourceLayout, Error>(SourceLayout::Gpt { partitions }));
        assert(spec_discover(image, 512) == Some(LayoutView::Mbr(parts)) || spec_discover(image, 512)
            == Some(LayoutView::Gpt(parts)));
        let ghost mut attempts: Seq<(Result<SourceViewModel>, bool)> = Seq::empty();
        let mut last_error: Option<Error> = None;
        let mut i: usize = 0;
        while i < partitions.len()
            invariant
                i <= partitions@.len(),
                self.next_row_id() == old(self).next_row_id(),
                self.probe_tool() == prober,
                prober == old(self).probe_tool(),
                id == old(self).next_row_id(),
                parts == views(partitions@),
                image == (*reader).bytes(),
                spec_discover(image, 512) == Some(LayoutView::Mbr(parts)) || spec_discover(image, 512)
                    == Some(LayoutView::Gpt(parts)),
                call_ensures(R::len, (&*reader,), measured_result),
                measured_result == Ok::<u64, Error>(source_size),
                geometry.sector_size() == 512,
                call_ensures(discover_layout::<R>, (&*reader, geometry), found_result),
                found_result == Ok::<SourceLayout, Error>(SourceLayout::Mbr { partitions })
                    || found_result == Ok::<SourceLayout, Error>(SourceLayout::Gpt { partitions }),
                attempts.len() == i,
                forall|j: int|
                    0 <= j < i ==> #[trigger] partition_probe::<P, R>(
                        &prober,
                        reader,
                        id,
                        path@,
                        parts[j],
                        attempts[j],
                    ),
                forall|j: int| 0 <= j < i ==> !(#[trigger] attempts[j]).1,
                i == 0 ==> last_error is None,
                i > 0 ==> (last_error matches Some(e) && attempts.last().0 == Err::<SourceViewModel, Error>(e)),
            decreases partitions@.len() - i,
        {
            let partition = partitions[i];
            let ghost k = i as int;
            assert(parts[k] == partition@);
            let ghost description = partition_description(path@, partition.number);
            let shared = share(&reader);
            let bounded = PartitionReader::new(shared, partition.byte_offset, partition.byte_length);
            let ghost bounded_result = bounded;
            assert(call_ensures(
                PartitionReader::<R>::new,
                (reader, partition.byte_offset, partition.byte_length),
                bounded_result,
            ));
            let view = match bounded {
                Ok(view) => view,
                Err(error) => {
                    proof {
                        assert(partition_probe::<P, R>(&prober, reader, id, path@, parts[k], (Err::<SourceViewModel, Error>(error), false)));
                        attempts = attempts.push((Err::<SourceViewModel, Error>(error), false));
                    }
                    last_error = Some(error);
                    i = i + 1;
                    continue;
                },
            };
            let ghost view_value = view;
            let view = Arc::new(view);
            let ghost view_arc = view;
            let probed = self.prober.probe(view);
            let ghost probed_result = probed;
            assert(*view_arc == view_value);
            assert(call_ensures(P::probe::<R>, (&prober, view_arc), probed_result));
            match probed {
                Ok(found_fs) => {
                    let info = match found_fs.info {
                        Ok(info) => info,
                        Err(e) => {
                            proof {
                                let attempt = (Err::<SourceViewModel, Error>(e), true);
                                assert(partition_probe::<P, R>(&prober, reader, id, path@, parts[k], attempt));
                                lemma_probe_stopped::<P, R>(&prober, reader, id, path@, parts, attempts, attempt);
                            }
                            return Err(e);
                        },
                    };
                    let mut description_text = String::from_str(path);
                    description_text.append(" (partition ");
                    push_decimal(&mut description_text, partition.number as u64);
                    description_text.append(")");
                    let row = self.source_from_info(
                        path,
                        partition.byte_length,
                        description_text,
                        Some((partition.byte_offset, partition.byte_length)),
                        info,
                    );
                    assert(description_text@ == partition_description(path@, parts[k].number));
                    assert(image_row(
                        id,
                        path@,
                        parts[k].byte_length,
                        partition_description(path@, parts[k].number),
                        Some((parts[k].byte_offset, parts[k].byte_length)),
                        info,
                        row,
                    ));
                    assert(partition_row(id, path@, parts[k], row));
                    assert(0 <= k < parts.len());
                    proof {
                        let d = spec_discover(image, 512);
                        if d == Some(LayoutView::Mbr(parts)) {
                            assert(d matches Some(LayoutView::Mbr(ps)) && ps == parts);
                            assert(partition_row(id, path@, d->Some_0->Mbr_0[k], row));
                        } else {
                            assert(d matches Some(LayoutView::Gpt(ps)) && ps == parts);
                            assert(partition_row(id, path@, d->Some_0->Gpt_0[k], row));
                        }
                        let attempt = (Ok::<SourceViewModel, Error>(row), true);
                        assert(partition_probe::<P, R>(&prober, reader, id, path@, parts[k], attempt));
                        lemma_probe_stopped::<P, R>(&prober, reader, id, path@, parts, attempts, attempt);
                    }
                    return Ok(row);
                },
                Err(error) => {
                    proof {
                        assert(partition_probe::<P, R>(&prober, reader, id, path@, parts[k], (Err::<SourceViewModel, Error>(error), false)));
                        attempts = attempts.push((Err::<SourceViewModel, Error>(error), false));
                    }
                    last_error = Some(error);
                },
            }
            i = i + 1;
        }
        let r = match last_error {
            Some(error) => Err(error),
            None => Err(
                Error::new(
                    ErrorCategory::UnsupportedFilesystem,
                    "no supported Ext filesystem found in image partitions",
                ),
            ),
        };
        assert(probed_in_order::<P, R>(&prober, reader, id, path@, parts, attempts, r));
        r
    }
}

/// Probing that stops on the next partition ends the run of attempts there.
proof fn lemma_probe_stopped<P: FilesystemProbe, R: BlockReader + 'static>(
    prober: &P,
    reader: Arc<R>,
    id: u64,
    path: Seq<char>,
    parts: Seq<PartitionView>,
    attempts: Seq<(Result<SourceViewModel>, bool)>,
    attempt: (Result<SourceViewModel>, bool),
)
    requires
        attempts.len() < parts.len(),
        forall|j: int|
            0 <= j < attempts.len() ==> #[trigger] partition_probe::<P, R>(
                prober,
                reader,
                id,
                path,
                parts[j],
                attempts[j],
            ),
        forall|j: int| 0 <= j < attempts.len() ==> !(#[trigger] attempts[j]).1,
        partition_probe::<P, R>(prober, reader, id, path, parts[attempts.len() as int], attempt),
        attempt.1,
    ensures
        probed_first::<P, R>(prober, reader, id, path, parts, attempt.0),
{
    let done = attempts.push(attempt);
    assert forall|j: int| 0 <= j < done.len() implies #[trigger] partition_probe::<P, R>(
        prober,
        reader,
        id,
        path,
        parts[j],
        done[j],
    ) by {
        if j < attempts.len() {
            assert(done[j] == attempts[j]);
        }
    }
    assert forall|j: int| 0 <= j < done.len() - 1 implies !(#[trigger] done[j]).1 by {
        assert(done[j] == attempts[j]);
    }
    assert(probed_in_order::<P, R>(prober, reader, id, path, parts, done, attempt.0));
}

/// Whether `r` is what opening the image at `path` with `files` gives, its row
/// numbered `id`: the error of opening it where that failed, else the outcome of
/// [`ImageSourceProvider::open_image_source`] on the source it opened.
pub open spec fn opened_image_row<F: ImageFiles, P: FilesystemProbe>(
    files: F,
    prober: P,
    path: &str,
    id: u64,
    r: Result<SourceViewModel>,
) -> bool {
    exists|opened: Result<F::Reader>|
        #[trigger] call_ensures(F::open, (&files, path), opened) && match opened {
            Err(e) => r == Err::<SourceViewModel, Error>(e),
            Ok(reader) => {
                &&& r matches Ok(row) ==> image_source_row(id, path@, reader.bytes(), row)
                &&& reader.reliable() && spec_discover(reader.bytes(), 512) is None ==> (r matches Err(
                    e,
                ) && e.kind() == ErrorCategory::PartitionTable)
                &&& reader.reliable() && spec_discover(reader.bytes(), 512) == Some(
                    LayoutView::Gpt(Seq::empty()),
                ) ==> (r matches Err(e) && e.kind() == ErrorCategory::UnsupportedFilesystem)
                &&& exists|shared: Arc<F::Reader>|
                    *shared == reader && #[trigger] image_probe_outcome::<P, F::Reader>(
                        &prober,
                        shared,
                        id,
                        path@,
                        r,
                    )
            },
        }
}

impl<F: ImageFiles, P: FilesystemProbe> SourceProvider for ImageSourceProvider<F, P> {
    /// Image files are opened one by one; there is nothing to scan.
    fn refresh(&mut self) -> (r: Result<Vec<SourceViewModel>>)
        ensures
            r matches Ok(rows) && rows@.len() == 0,
    {
        Ok(Vec::new())
    }

    /// Opens the image at `path` read-only and returns the row of its filesystem,
    /// as [`ImageSourceProvider::open_image_source`] finds it.
    fn open_image(&mut self, path: &str) -> (r: Result<SourceViewModel>)
        ensures
            r matches Ok(row) ==> row.id == SourceId(old(self).next_row_id()) && row.source_path@
                == path@ && row.status == SourceStatus::Compatible && row.read_only
                && row.physical_disk_index is None && row.mount_point is None,
            opened_image_row(old(self).image_files(), old(self).probe_tool(), path, old(self).next_row_id(), r),
    {
        let opened = self.files.open(path);
        let reader = match opened {
            Ok(reader) => reader,
            Err(e) => return Err(e),
        };
        let ghost bytes = reader.bytes();
        let ghost reliable = reader.reliable();
        let reader = Arc::new(reader);
        let ghost id = self.next_row_id();
        let ghost shared = reader;
        let r = self.open_image_source(path, reader);
        proof {
            assert(image_probe_outcome::<P, F::Reader>(&old(self).probe_tool(), shared, id, path@, r));
            if r is Ok {
                lemma_image_source_row_is_compatible(id, path@, r->Ok_0);
            }
        }
        r
    }
}

/// The id of the row of partition `number` of drive `disk_index`: the top bit
/// set, the drive in the upper half and the partition in the lower half.
pub open spec fn physical_source_id(disk_index: u32, number: u32) -> u64 {
    (1u64 << 63u64) | ((disk_index as u64) << 32u64) | (number as u64)
}

/// The name a physical source is shown by.
pub open spec fn physical_display_name(info: PhysicalPartitionInfo) -> Seq<char> {
    if info.disk_index == u32::MAX {
        "Windows volume "@ + info.source_path@
    } else {
        "PhysicalDrive"@ + decimal(info.disk_index as nat) + " partition "@ + decimal(
            info.partition.number as nat,
        )
    }
}

/// Whether `row` is the row of the physical partition `info`.
pub open spec fn physical_row(info: PhysicalPartitionInfo, row: SourceViewModel) -> bool {
    &&& row.id == SourceId(physical_source_id(info.disk_index, info.partition.number))
    &&& row.kind == SourceKind::PhysicalDisk
    &&& row.display_name@ == physical_display_name(info)
    &&& row.source_description@ == info.source_path@
    &&& row.source_path@ == info.source_path@
    &&& row.partition_range == Some((info.partition.byte_offset, info.partition.byte_length))
    &&& row.physical_disk_index == (if info.disk_index == u32::MAX {
        None
    } else {
        Some(info.disk_index)
    })
    &&& row.filesystem_type matches Some(t) && t == info.filesystem.filesystem_type
    &&& row.label == info.filesystem.label
    &&& match row.uuid {
        Some(u) => uuid_text(info.filesystem.uuid) == Some(u@),
        None => info.filesystem.uuid is None,
    }
    &&& row.size_bytes == Some(info.partition.byte_length)
    &&& row.status == SourceStatus::Compatible
    &&& row.mount_point is None
    &&& row.read_only
}

/// The row of a physical partition that holds a recognized filesystem.
pub fn physical_source(info: PhysicalPartitionInfo) -> (row: SourceViewModel)
    ensures
        physical_row(info, row),
{
    let disk_index = info.disk_index;
    let partition = info.partition;
    let id = (1u64 << 63u64) | ((disk_index as u64) << 32u64) | (partition.number as u64);
    let display_name = if disk_index == u32::MAX {
        let mut name = String::from_str("Windows volume ");
        name.append(info.source_path.as_str());
        name
    } else {
        let mut name = String::from_str("PhysicalDrive");
        push_decimal(&mut name, disk_index as u64);
        name.append(" partition ");
        push_decimal(&mut name, partition.number as u64);
        name
    };
    let uuid = uuid_string(info.filesystem.uuid);
    SourceViewModel {
        id: SourceId(id),
        kind: SourceKind::PhysicalDisk,
        display_name,
        source_description: info.source_path.clone(),
        source_path: info.source_path,
        partition_range: Some((partition.byte_offset, partition.byte_length)),
        physical_disk_index: if disk_index == u32::MAX {
            None
        } else {
            Some(disk_index)
        },
        filesystem_type: Some(info.filesystem.filesystem_type),
        label: info.filesystem.label,
        uuid,
        size_bytes: Some(partition.byte_length),
        status: SourceStatus::Compatible,
        mount_point: None,
        read_only: true,
    }
}

/// Whether `r` lists a row for each partition of `found`, in order, or is the
/// error for finding none.
pub open spec fn rows_of_found(found: Seq<PhysicalPartitionInfo>, r: Result<Vec<SourceViewModel>>) -> bool {
    &&& found.len() == 0 ==> (r matches Err(e) && e.kind() == ErrorCategory::UnsupportedFilesystem)
    &&& found.len() > 0 ==> (r matches Ok(rows) && rows@.len() == found.len() && forall|k: int|
        0 <= k < rows@.len() ==> physical_row(found[k], #[trigger] rows@[k]))
}

/// The rows of the physical partitions found, or an error where there are none.
pub fn physical_sources(found: Vec<PhysicalPartitionInfo>) -> (r: Result<Vec<SourceViewModel>>)
    ensures
        found@.len() == 0 ==> (r matches Err(e) && e.kind() == ErrorCategory::UnsupportedFilesystem),
        found@.len() > 0 ==> (r matches Ok(rows) && rows@.len() == found@.len() && forall|k: int|
            0 <= k < rows@.len() ==> physical_row(found@[k], #[trigger] rows@[k])),
{
    if found.len() == 0 {
        return Err(
            Error::new(
                ErrorCategory::UnsupportedFilesystem,
                "no supported Ext filesystem was found on physical disks or Windows volume devices",
            ),
        );
    }
    let ghost all = found@;
    let mut remaining = found;
    let mut rows: Vec<SourceViewModel> = Vec::new();
    while remaining.len() > 0
        invariant
            rows@.len() + remaining@.len() == all.len(),
            remaining@ == all.subrange(rows@.len() as int, all.len() as int),
            forall|k: int| 0 <= k < rows@.len() ==> physical_row(all[k], #[trigger] rows@[k]),
        decreases remaining@.len(),
    {
        let info = remaining.remove(0);
        rows.push(physical_source(info));
        assert(remaining@ =~= all.subrange(rows@.len() as int, all.len() as int));
    }
    Ok(rows)
}

/// Lists the Linux filesystems on the machine's physical drives and volumes and
/// opens image files.
pub struct WindowsSourceProvider<D, P, F, Q> {
    devices: D,
    prober: P,
    image_provider: ImageSourceProvider<F, Q>,
}

impl<D: DiskDevices, P: FilesystemProbe, F: ImageFiles, Q: FilesystemProbe> WindowsSourceProvider<
    D,
    P,
    F,
    Q,
> {
    /// The devices a refresh scans.
    pub closed spec fn scanned_devices(&self) -> D {
        self.devices
    }

    /// What a refresh recognizes filesystems with.
    pub closed spec fn scan_prober(&self) -> P {
        self.prober
    }

    /// The id the next image row will get.
    pub closed spec fn next_image_row_id(&self) -> u64 {
        self.image_provider.next_row_id()
    }

    /// What this provider opens image files with.
    pub closed spec fn image_source_files(&self) -> F {
        self.image_provider.image_files()
    }

    /// What this provider recognizes the filesystems of image files with.
    pub closed spec fn image_source_prober(&self) -> Q {
        self.image_provider.probe_tool()
    }

    /// A provider that scans `devices` with `prober` and opens images with
    /// `image_provider`.
    pub fn new(devices: D, prober: P, image_provider: ImageSourceProvider<F, Q>) -> (r: Self)
        ensures
            r.next_image_row_id() == image_provider.next_row_id(),
    {
        WindowsSourceProvider { devices, prober, image_provider }
    }
}

impl<D: DiskDevices, P: FilesystemProbe, F: ImageFiles, Q: FilesystemProbe> SourceProvider for WindowsSourceProvider<
    D,
    P,
    F,
    Q,
> {
    /// Scans physical drives `0` to `31`, then the drive-letter volumes, and lists
    /// every partition found; an error where there is none.
    fn refresh(&mut self) -> (r: Result<Vec<SourceViewModel>>)
        ensures
            r matches Ok(rows) ==> rows@.len() > 0 && forall|k: int|
                0 <= k < rows@.len() ==> (#[trigger] rows@[k]).kind == SourceKind::PhysicalDisk
                    && rows@[k].read_only && rows@[k].status == SourceStatus::Compatible,
            exists|checked: Result<Vec<PhysicalPartitionInfo>>, volumes: Vec<PhysicalPartitionInfo>|
                #[trigger] call_ensures(
                    discover_physical_partitions_checked::<D, P>,
                    (&old(self).scanned_devices(), &old(self).scan_prober(), 32u32),
                    checked,
                ) && #[trigger] call_ensures(
                    discover_volume_partitions::<D, P>,
                    (&old(self).scanned_devices(), &old(self).scan_prober()),
                    volumes,
                ) && rows_of_found(
                    match checked {
                        Ok(found) => found@,
                        Err(_) => Seq::empty(),
                    } + volumes@,
                    r,
                ),
    {
        let checked = discover_physical_partitions_checked(&self.devices, &self.prober, 32);
        let ghost checked_result = checked;
        let mut physical = match checked {
            Ok(found) => found,
            Err(_) => Vec::new(),
        };
        let mut volumes = discover_volume_partitions(&self.devices, &self.prober);
        let ghost volumes_found = volumes;
        let ghost before = physical@;
        physical.append(&mut volumes);
        assert(physical@ =~= before + volumes_found@);
        let r = physical_sources(physical);
        assert(rows_of_found(
            match checked_result {
                Ok(found) => found@,
                Err(_) => Seq::empty(),
            } + volumes_found@,
            r,
        ));
        r
    }

    /// Opens the image at `path` as the image provider does.
    fn open_image(&mut self, path: &str) -> (r: Result<SourceViewModel>)
        ensures
            r matches Ok(row) ==> row.id == SourceId(old(self).next_image_row_id()) && row.source_path@
                == path@ && row.status == SourceStatus::Compatible && row.read_only
                && row.physical_disk_index is None && row.mount_point is None,
            opened_image_row(
                old(self).image_source_files(),
                old(self).image_source_prober(),
                path,
                old(self).next_image_row_id(),
                r,
            ),
    {
        self.image_provider.open_image(path)
    }
}

/// Whether a source of this kind can be mounted.
pub fn source_kind_is_mountable(kind: SourceKind) -> (r: bool)
    ensures
        r,
{
    match kind {
        SourceKind::Image | SourceKind::Partition | SourceKind::PhysicalDisk => true,
    }
}

/// Whether `point` names a drive letter such as `L:`, once trimmed.
pub open spec fn is_drive_letter_point(point: Seq<char>) -> bool {
    let t = trim_end(trim_start(point));
    &&& t.len() == 2
    &&& (('A' <= t[0] && t[0] <= 'Z') || ('a' <= t[0] && t[0] <= 'z'))
    &&& t[1] == ':'
}

/// A character as a string literal shows it between quotes.
pub open spec fn quoted_char(c: char) -> Seq<char> {
    if c == '"' {
        seq!['\\', '"']
    } else if c == '\\' {
        seq!['\\', '\\']
    } else if c == '\n' {
        seq!['\\', 'n']
    } else if c == '\r' {
        seq!['\\', 'r']
    } else if c == '\t' {
        seq!['\\', 't']
    } else if c == '\0' {
        seq!['\\', '0']
    } else {
        seq![c]
    }
}

/// The characters of `s` as a string literal shows them between quotes.
pub open spec fn quoted_body(s: Seq<char>) -> Seq<char>
    decreases s.len(),
{
    if s.len() == 0 {
        Seq::empty()
    } else {
        quoted_body(s.drop_last()) + quoted_char(s.last())
    }
}

/// The message of the error for a mount point that is not a drive letter.
pub open spec fn invalid_mount_point_text(point: Seq<char>) -> Seq<char> {
    "invalid mount point \""@ + quoted_body(trim_end(trim_start(point)))
        + "\"; expected a drive letter such as L:"@
}

fn push_quoted(s: &mut String, c: char)
    ensures
        final(s)@ == old(s)@ + quoted_char(c),
{
    if c == '"' {
        push_char(s, '\\');
        push_char(s, '"');
    } else if c == '\\' {
        push_char(s, '\\');
        push_char(s, '\\');
    } else if c == '\n' {
        push_char(s, '\\');
        push_char(s, 'n');
    } else if c == '\r' {
        push_char(s, '\\');
        push_char(s, 'r');
    } else if c == '\t' {
        push_char(s, '\\');
        push_char(s, 't');
    } else if c == '\0' {
        push_char(s, '\\');
        push_char(s, '0');
    } else {
        push_char(s, c);
    }
    assert(final(s)@ =~= old(s)@ + quoted_char(c));
}

/// Accepts a mount point that is a drive letter such as `L:`, once trimmed.
pub fn validate_mount_point(point: &str) -> (r: Result<()>)
    ensures
        r is Ok <==> is_drive_letter_point(point@),
        r matches Err(e) ==> e.kind() == ErrorCategory::MountPointUnavailable && e.text()
            == invalid_mount_point_text(point@),
{
    let t = trimmed_chars(point);
    if t.len() == 2 && (('A' <= t[0] && t[0] <= 'Z') || ('a' <= t[0] && t[0] <= 'z')) && t[1]
        == ':' {
        return Ok(());
    }
    let mut message = String::from_str("invalid mount point \"");
    let ghost start = message@;
    let mut i: usize = 0;
    while i < t.len()
        invariant
            i <= t@.len(),
            message@ == start + quoted_body(t@.subrange(0, i as int)),
        decreases t@.len() - i,
    {
        assert(t@.subrange(0, i + 1).drop_last() =~= t@.subrange(0, i as int));
        push_quoted(&mut message, t[i]);
        assert(message@ =~= start + quoted_body(t@.subrange(0, i + 1)));
        i = i + 1;
    }
    assert(t@.subrange(0, t@.len() as int) =~= t@);
    message.append("\"; expected a drive letter such as L:");
    Err(Error::new(ErrorCategory::MountPointUnavailable, message.as_str()))
}

/// Creates the native hosts that serve sources read-only, and shows mount points.
pub trait MountHostFactory {
    type Host: MountHost;

    /// A host that serves `source` read-only at `mount_point`.
    fn create(&self, source: &SourceViewModel, mount_point: &str) -> Result<Self::Host>;

    /// Opens `mount_point` in Windows Explorer.
    fn open_explorer(&self, mount_point: &str) -> Result<()>;
}

/// Whether unmounting `manager` can report `res`.
pub open spec fn unmount_outcome<H: MountHost>(manager: MountManager<H>, res: Result<()>) -> bool {
    exists|o: &mut MountManager<H>| *o == manager && #[trigger] call_ensures(MountManager::<H>::unmount, (o,), res)
}

/// Mounts one source at a time read-only at one drive letter.
pub struct WindowsImageMountService<F: MountHostFactory> {
    mount_point: String,
    mounts: HashMap<u64, MountManager<F::Host>>,
    factory: F,
}

impl<F: MountHostFactory> WindowsImageMountService<F> {
    /// The ids of the sources mounted now.
    pub closed spec fn mounted(&self) -> Set<u64> {
        self.mounts@.dom()
    }

    /// The drive letter mounts go to.
    pub closed spec fn point(&self) -> Seq<char> {
        self.mount_point@
    }

    /// What creates hosts and opens Explorer for this service.
    pub closed spec fn mount_factory(&self) -> F {
        self.factory
    }

    /// The manager kept for the mount of source `id`, where one is kept.
    pub closed spec fn manager_of(&self, id: SourceId) -> MountManager<F::Host> {
        self.mounts@[id.0]
    }

    /// Whether every kept mount is mounted and at most one is kept.
    pub closed spec fn well_formed(&self) -> bool {
        &&& self.mounts@.dom().len() <= 1
        &&& forall|k: u64| #[trigger] self.mounts@.contains_key(k) ==> self.mounts@[k].state() == MountStatus::Mounted
    }

    /// A service with nothing mounted that mounts at `mount_point`.
    pub fn new(mount_point: String, factory: F) -> (r: Self)
        ensures
            r.mounted().len() == 0,
            r.point() == mount_point@,
            r.well_formed(),
    {
        let r = WindowsImageMountService { mount_point, mounts: HashMap::new(), factory };
        assert(r.mounted() =~= Set::empty());
        r
    }

    /// Unmounts every mount (a well-formed service keeps at most one), drops
    /// them all, and returns the failures to unmount.
    pub fn unmount_all(&mut self) -> (failures: Vec<(SourceId, Error)>)
        requires
            old(self).well_formed(),
        ensures
            final(self).well_formed(),
            final(self).point() == old(self).point(),
            final(self).mounted().len() == 0,
            forall|j: int| 0 <= j < failures@.len() ==> old(self).mounted().contains((#[trigger] failures@[j]).0.0),
            forall|k: u64|
                #![trigger old(self).mounted().contains(k)]
                old(self).mounted().contains(k) ==> exists|o: &mut MountManager<F::Host>, res: Result<()>|
                    *o == old(self).manager_of(SourceId(k)) && #[trigger] call_ensures(
                        MountManager::<F::Host>::unmount,
                        (o,),
                        res,
                    ) && match res {
                        Ok(_) => forall|j: int| 0 <= j < failures@.len() ==> (#[trigger] failures@[j]).0 != SourceId(k),
                        Err(e) => failures@.contains((SourceId(k), e)),
                    },
    {
        let mut ids: Vec<u64> = Vec::new();
        for key in it: self.mounts.keys()
            invariant
                ids@ == it.seq().take(it.index() as int).unref(),
        {
            ids.push(*key);
        }
        let ghost all = self.mounts@;
        let ghost keys = vstd::std_specs::hash::spec_keys_iter(&self.mounts).remaining();
        proof {
            assert(ids@ =~= keys.unref());
            assert(ids@.no_duplicates()) by {
                assert forall|x: int, y: int| 0 <= x < y < ids@.len() implies ids@[x] != ids@[y] by {
                    assert(keys[x] != keys[y]);
                }
            }
            assert forall|k: u64| all.contains_key(k) implies ids@.contains(k) by {
                assert(keys.unref().to_set().contains(k));
            }
            assert forall|m: int| 0 <= m < ids@.len() implies all.contains_key(#[trigger] ids@[m]) by {
                assert(keys.unref().to_set().contains(ids@[m]));
            }
        }
        let mut failures: Vec<(SourceId, Error)> = Vec::new();
        let ghost mut outcomes: Seq<Result<()>> = Seq::empty();
        let mut i: usize = 0;
        while i < ids.len()
            invariant
                i <= ids@.len(),
                ids@.no_duplicates(),
                forall|k: u64| all.contains_key(k) ==> ids@.contains(k),
                forall|m: int| 0 <= m < ids@.len() ==> all.contains_key(#[trigger] ids@[m]),
                all == old(self).mounts@,
                self.mount_point == old(self).mount_point,
                forall|k: u64| #[trigger] self.mounts@.contains_key(k) <==> (all.contains_key(k) && !ids@.take(i as int).contains(k)),
                forall|k: u64| #[trigger] self.mounts@.contains_key(k) ==> self.mounts@[k] == all[k],
                outcomes.len() == i,
                forall|m: int| 0 <= m < i ==> unmount_outcome(all[#[trigger] ids@[m]], outcomes[m]),
                forall|m: int|
                    0 <= m < i ==> ((#[trigger] outcomes[m]) matches Err(e) ==> failures@.contains((SourceId(ids@[m]), e))),
                forall|j: int|
                    0 <= j < failures@.len() ==> exists|m: int|
                        0 <= m < i && ids@[m] == (#[trigger] failures@[j]).0.0 && outcomes[m] == Err::<(), Error>(failures@[j].1),
            decreases ids@.len() - i,
        {
            let id = ids[i];
            assert(ids@.take(i + 1) =~= ids@.take(i as int).push(id));
            assert(!ids@.take(i as int).contains(id)) by {
                if ids@.take(i as int).contains(id) {
                    let m = choose|m: int| 0 <= m < i && ids@.take(i as int)[m] == id;
                    assert(ids@[m] == ids@[i as int]);
                }
            }
            assert(self.mounts@.contains_key(id));
            let ghost before = self.mounts@;
            let ghost failures_before = failures@;
            match self.mounts.remove(&id) {
                Some(mut manager) => {
                    let ghost held = manager;
                    assert(held == all[id]);
                    let unmounted = manager.unmount();
                    let ghost outcome = unmounted;
                    assert(exists|o: &mut MountManager<F::Host>|
                        *o == held && #[trigger] call_ensures(MountManager::<F::Host>::unmount, (o,), outcome));
                    match unmounted {
                        Ok(()) => {},
                        Err(error) => {
                            failures.push((SourceId(id), error));
                            assert(failures@.last() == (SourceId(id), error));
                        },
                    }
                    proof {
                        let previous = outcomes;
                        outcomes = outcomes.push(outcome);
                        assert(outcomes.drop_last() =~= previous);
                        assert forall|m: int| 0 <= m < i + 1 implies unmount_outcome(all[#[trigger] ids@[m]], outcomes[m]) by {
                            if m < i {
                                assert(outcomes[m] == previous[m]);
                            } else {
                                assert(ids@[m] == id && outcomes[m] == outcome);
                                assert(held == all[ids@[m]]);
                            }
                        }
                        assert(self.mounts@ == before.remove(id));
                        assert forall|k: u64| #[trigger] self.mounts@.contains_key(k) <==> (all.contains_key(k)
                            && !ids@.take(i + 1).contains(k)) by {
                            let longer = ids@.take(i + 1);
                            let shorter = ids@.take(i as int);
                            assert(longer =~= shorter.push(id));
                            assert(longer.contains(k) <==> (shorter.contains(k) || k == id)) by {
                                if longer.contains(k) {
                                    let m = choose|m: int| 0 <= m < longer.len() && longer[m] == k;
                                    if m < shorter.len() {
                                        assert(shorter[m] == k);
                                    }
                                }
                                if shorter.contains(k) {
                                    let m = choose|m: int| 0 <= m < shorter.len() && shorter[m] == k;
                                    assert(longer[m] == k);
                                }
                                if k == id {
                                    assert(longer[shorter.len() as int] == k);
                                }
                            }
                        }
                        assert forall|m: int| 0 <= m < i + 1 implies ((#[trigger] outcomes[m]) matches Err(e)
                            ==> failures@.contains((SourceId(ids@[m]), e))) by {
                            if m < i {
                                if outcomes[m] is Err {
                                    let e = outcomes[m]->Err_0;
                                    let j = choose|j: int| 0 <= j < failures_before.len() && failures_before[j] == (SourceId(ids@[m]), e);
                                    assert(failures@[j] == failures_before[j]);
                                }
                            } else if outcome is Err {
                                assert(failures@[failures@.len() - 1] == (SourceId(id), outcome->Err_0));
                            }
                        }
                        assert forall|j: int| 0 <= j < failures@.len() implies exists|m: int|
                            0 <= m < i + 1 && ids@[m] == (#[trigger] failures@[j]).0.0 && outcomes[m] == Err::<(), Error>(failures@[j].1) by {
                            if j < failures_before.len() {
                                assert(failures@[j] == failures_before[j]);
                                let m = choose|m: int| 0 <= m < i && ids@[m] == failures_before[j].0.0 && outcomes.drop_last()[m] == Err::<(), Error>(failures_before[j].1);
                                assert(outcomes[m] == outcomes.drop_last()[m]);
                            } else {
                                assert(ids@[i as int] == id);
                                assert(failures@[j] == (SourceId(id), outcome->Err_0));
                                assert(outcomes[i as int] == outcome);
                                assert(0 <= i < i + 1 && ids@[i as int] == failures@[j].0.0 && outcomes[i as int]
                                    == Err::<(), Error>(failures@[j].1));
                            }
                        }
                    }
                },
                None => {
                    assert(false);
                },
            }
            i = i + 1;
        }
        proof {
            assert(ids@.take(ids@.len() as int) =~= ids@);
            assert(self.mounts@.dom() =~= Set::empty());
            assert forall|k: u64| #![trigger old(self).mounted().contains(k)] old(self).mounted().contains(k) implies exists|o: &mut MountManager<F::Host>, res: Result<()>|
                *o == old(self).manager_of(SourceId(k)) && #[trigger] call_ensures(MountManager::<F::Host>::unmount, (o,), res)
                    && match res {
                    Ok(_) => forall|j: int| 0 <= j < failures@.len() ==> (#[trigger] failures@[j]).0 != SourceId(k),
                    Err(e) => failures@.contains((SourceId(k), e)),
                } by {
                let m = choose|m: int| 0 <= m < ids@.len() && ids@[m] == k;
                let res = outcomes[m];
                assert(ids@[m] == k);
                assert(unmount_outcome(all[ids@[m]], res));
                if res is Ok {
                    assert forall|j: int| 0 <= j < failures@.len() implies (#[trigger] failures@[j]).0 != SourceId(k) by {
                        let m2 = choose|m2: int| 0 <= m2 < ids@.len() && ids@[m2] == failures@[j].0.0 && outcomes[m2] == Err::<(), Error>(failures@[j].1);
                        if failures@[j].0 == SourceId(k) {
                            assert(ids@[m2] == ids@[m]);
                        }
                    }
                }
            }
        }
        failures
    }
}

impl<F: MountHostFactory> MountService for WindowsImageMountService<F> {
    /// Mounts `source` read-only at the service's drive letter: refused where the
    /// drive letter is not valid, where the source is mounted already, or where
    /// another source holds the drive letter.
    fn mount(&mut self, source: &SourceViewModel) -> (r: Result<String>)
        ensures
            !is_drive_letter_point(old(self).point()) ==> (r matches Err(e) && e.kind()
                == ErrorCategory::MountPointUnavailable),
            old(self).mounted().contains(source.id.0) && is_drive_letter_point(old(self).point()) ==> (r matches Err(e)
                && e.kind() == ErrorCategory::WinFspFailure),
            r matches Ok(point) ==> point@ == old(self).point() && old(self).mounted().len() == 0
                && final(self).mounted() == set![source.id.0],
            r is Err ==> final(self).mounted() == old(self).mounted(),
            final(self).point() == old(self).point(),
            old(self).well_formed() ==> final(self).well_formed(),
            !is_drive_letter_point(old(self).point()) ==> (r matches Err(e) && e.text()
                == invalid_mount_point_text(old(self).point())),
            is_drive_letter_point(old(self).point()) && !old(self).mounted().contains(source.id.0)
                && old(self).mounted().len() > 0 ==> (r matches Err(e) && e.kind()
                == ErrorCategory::MountPointUnavailable && e.text() == "mount point "@ + old(
                self,
            ).point() + " is already in use by another source"@),
            is_drive_letter_point(old(self).point()) && old(self).mounted().len() == 0 ==> exists|
                point: &str,
                created: Result<F::Host>,
            |
                point@ == old(self).point() && #[trigger] call_ensures(
                    F::create,
                    (&old(self).mount_factory(), source, point),
                    created,
                ) && match created {
                    Err(e) => r == Err::<String, Error>(e),
                    Ok(host) => exists|o: &mut F::Host, mounted: Result<()>|
                        *o == host && #[trigger] call_ensures(<F::Host as MountHost>::mount, (o,), mounted)
                            && (mounted is Ok <==> r is Ok) && (mounted matches Err(e) ==> r == Err::<
                            String,
                            Error,
                        >(e)),
                },
    {
        validate_mount_point(self.mount_point.as_str())?;
        if !source_kind_is_mountable(source.kind) {
            return Err(
                Error::new(
                    ErrorCategory::UnsupportedFilesystem,
                    "source is not a supported mountable filesystem",
                ),
            );
        }
        if self.mounts.contains_key(&source.id.0) {
            return Err(Error::new(ErrorCategory::WinFspFailure, "source is already mounted"));
        }
        if self.mounts.len() > 0 {
            let mut message = String::from_str("mount point ");
            message.append(self.mount_point.as_str());
            message.append(" is already in use by another source");
            return Err(Error::new(ErrorCategory::MountPointUnavailable, message.as_str()));
        }
        let point = self.mount_point.as_str();
        let created = self.factory.create(source, point);
        let ghost created_result = created;
        assert(call_ensures(F::create, (&self.factory, source, point), created_result));
        let host = match created {
            Ok(host) => host,
            Err(e) => {
                let r: Result<String> = Err(e);
                assert(r == Err::<String, Error>(created_result->Err_0));
                assert(exists|p: &str, c: Result<F::Host>|
                    p@ == old(self).point() && #[trigger] call_ensures(F::create, (&old(self).mount_factory(), source, p), c)
                        && c is Err && r == Err::<String, Error>(c->Err_0));
                return r;
            },
        };
        let ghost created_host = host;
        let mut manager = MountManager::new(host);
        let mounted = manager.mount();
        let ghost mount_result = mounted;
        assert(exists|o: &mut F::Host, m: Result<()>|
            *o == created_host && #[trigger] call_ensures(<F::Host as MountHost>::mount, (o,), m)
                && (m is Ok <==> mount_result is Ok) && (m matches Err(e) ==> mount_result == Err::<(), Error>(e)));
        match mounted {
            Ok(()) => {},
            Err(e) => return Err(e),
        }
        self.mounts.insert(source.id.0, manager);
        assert(self.mounted() =~= set![source.id.0]);
        Ok(self.mount_point.clone())
    }

    /// Unmounts `source`; a mount that fails to unmount is kept for a retry.
    fn unmount(&mut self, source: &SourceViewModel) -> (r: Result<()>)
        ensures
            !old(self).mounted().contains(source.id.0) ==> (r matches Err(e) && e.kind()
                == ErrorCategory::WinFspFailure) && final(self).mounted() == old(self).mounted(),
            old(self).well_formed() && r is Ok ==> final(self).mounted().len() == 0,
            r is Err ==> final(self).mounted() == old(self).mounted(),
            old(self).well_formed() ==> final(self).well_formed(),
            final(self).point() == old(self).point(),
            r is Ok ==> final(self).mounted() == old(self).mounted().remove(source.id.0),
            old(self).mounted().contains(source.id.0) ==> exists|
                o: &mut MountManager<F::Host>,
                res: Result<()>,
            |
                *o == old(self).manager_of(source.id) && #[trigger] call_ensures(
                    MountManager::<F::Host>::unmount,
                    (o,),
                    res,
                ) && (res is Ok <==> r is Ok) && (res matches Err(e) ==> r == Err::<(), Error>(e))
                    && (r is Err ==> final(self).manager_of(source.id) == *final(o)),
    {
        let ghost before = self.mounts@;
        let mut manager = match self.mounts.remove(&source.id.0) {
            Some(manager) => manager,
            None => return Err(
                Error::new(ErrorCategory::WinFspFailure, "source is not owned by this application"),
            ),
        };
        let ghost held = manager;
        let unmounted = manager.unmount();
        let ghost unmounted_result = unmounted;
        assert(exists|o: &mut MountManager<F::Host>|
            *o == held && *final(o) == manager && #[trigger] call_ensures(
                MountManager::<F::Host>::unmount,
                (o,),
                unmounted_result,
            ));
        match unmounted {
            Ok(()) => {
                proof {
                    if old(self).well_formed() {
                        assert(before.dom() =~= set![source.id.0]) by {
                            assert forall|k: u64| before.dom().contains(k) implies k == source.id.0 by {
                                if k != source.id.0 {
                                    assert(before.dom().remove(k).contains(source.id.0));
                                    assert(before.dom().remove(k).len() == before.dom().len() - 1);
                                }
                            }
                        }
                        assert(self.mounts@.dom() =~= Set::empty());
                    }
                }
                Ok(())
            },
            Err(error) => {
                self.mounts.insert(source.id.0, manager);
                assert(self.mounts@.dom() =~= before.dom());
                Err(error)
            },
        }
    }

    /// Opens `mount_point` in Windows Explorer through the factory; the mounts
    /// stay as they are.
    fn open_in_explorer(&mut self, mount_point: &str) -> (r: Result<()>)
        ensures
            call_ensures(F::open_explorer, (&old(self).mount_factory(), mount_point), r),
            *final(self) == *old(self),
    {
        self.factory.open_explorer(mount_point)
    }
}

} // verus!
