use vstd::prelude::*;

use std::sync::Arc;

use crate::block::{share, BlockGeometry, BlockReader, PartitionReader};
use crate::error::{Error, ErrorCategory, Result};
use crate::filesystem::FilesystemInfo;
use crate::partition::{discover_layout, spec_discover, views, LayoutView, Partition, PartitionType, SourceLayout};
use crate::text::{decimal, hex_byte, join, joined, push_char, push_decimal, push_hex_byte, texts};

verus! {

/// A physical drive that opened read-only.
#[derive(Debug, Clone, PartialEq, Eq)]
pub struct PhysicalDiskInfo {
    pub index: u32,
    pub source_path: String,
    pub size_bytes: u64,
}

/// A partition of a physical drive that holds a supported filesystem.
#[derive(Debug, Clone)]
pub struct PhysicalPartitionInfo {
    pub disk_index: u32,
    pub source_path: String,
    pub partition: Partition,
    pub filesystem: FilesystemInfo,
}

/// Results and bounded diagnostics from one physical-drive scan.
#[derive(Debug)]
pub struct PhysicalScanReport {
    pub partitions: Vec<PhysicalPartitionInfo>,
    pub diagnostics: Vec<String>,
}

/// The first line of a rendered scan report.
pub open spec fn report_heading() -> Seq<char> {
    "LinuxFS Manager physical scan diagnostics\n"@
}

/// Each diagnostic as a list item of its own line.
pub open spec fn diagnostic_lines(diagnostics: Seq<Seq<char>>) -> Seq<char>
    decreases diagnostics.len(),
{
    if diagnostics.len() == 0 {
        Seq::empty()
    } else {
        diagnostic_lines(diagnostics.drop_last()) + "- "@ + diagnostics.last() + "\n"@
    }
}

/// A rendered report: the heading, the number of partitions found, then one line
/// per diagnostic.
pub open spec fn rendered_report(found: nat, diagnostics: Seq<Seq<char>>) -> Seq<char> {
    report_heading() + "Discovered supported filesystem partitions: "@ + decimal(found) + "\n"@
        + diagnostic_lines(diagnostics)
}

impl Default for PhysicalScanReport {
    fn default() -> (r: Self)
        ensures
            r.partitions@.len() == 0,
            r.diagnostics@.len() == 0,
    {
        PhysicalScanReport { partitions: Vec::new(), diagnostics: Vec::new() }
    }
}

impl PhysicalScanReport {
    /// The report as text for a person to read.
    pub fn render(&self) -> (r: String)
        ensures
            r@ == rendered_report(self.partitions@.len() as nat, texts(self.diagnostics@)),
    {
        let mut rendered = String::from_str("LinuxFS Manager physical scan diagnostics\n");
        rendered.append("Discovered supported filesystem partitions: ");
        push_decimal(&mut rendered, self.partitions.len() as u64);
        rendered.append("\n");
        let mut i: usize = 0;
        while i < self.diagnostics.len()
            invariant
                i <= self.diagnostics@.len(),
                rendered@ == report_heading() + "Discovered supported filesystem partitions: "@
                    + decimal(self.partitions@.len() as nat) + "\n"@ + diagnostic_lines(
                    texts(self.diagnostics@.subrange(0, i as int)),
                ),
            decreases self.diagnostics@.len() - i,
        {
            assert(texts(self.diagnostics@.subrange(0, i + 1)).drop_last() =~= texts(
                self.diagnostics@.subrange(0, i as int),
            ));
            rendered.append("- ");
            rendered.append(self.diagnostics[i].as_str());
            rendered.append("\n");
            i = i + 1;
        }
        assert(self.diagnostics@.subrange(0, self.diagnostics@.len() as int) =~= self.diagnostics@);
        rendered
    }
}

/// The device path of physical drive `index`.
pub open spec fn physical_path_text(index: u32) -> Seq<char> {
    "\\\\.\\PhysicalDrive"@ + decimal(index as nat)
}

/// The device path of physical drive `index`.
pub fn physical_disk_path(index: u32) -> (r: String)
    ensures
        r@ == physical_path_text(index),
{
    let mut path = String::from_str("\\\\.\\PhysicalDrive");
    push_decimal(&mut path, index as u64);
    path
}

/// The upper-case hexadecimal digits of each byte, separated by spaces.
pub open spec fn spaced_hex(bytes: Seq<u8>) -> Seq<char>
    decreases bytes.len(),
{
    if bytes.len() == 0 {
        Seq::empty()
    } else if bytes.len() == 1 {
        hex_byte(bytes[0], true)
    } else {
        spaced_hex(bytes.drop_last()) + " "@ + hex_byte(bytes.last(), true)
    }
}

/// The upper-case hexadecimal digits of each byte, separated by spaces.
pub fn hex_bytes(bytes: &[u8]) -> (r: String)
    ensures
        r@ == spaced_hex(bytes@),
{
    let mut r = String::new();
    let mut i: usize = 0;
    while i < bytes.len()
        invariant
            i <= bytes@.len(),
            r@ == spaced_hex(bytes@.subrange(0, i as int)),
        decreases bytes@.len() - i,
    {
        assert(bytes@.subrange(0, i + 1).drop_last() =~= bytes@.subrange(0, i as int));
        if i > 0 {
            r.append(" ");
        }
        push_hex_byte(&mut r, bytes[i], true);
        i = i + 1;
    }
    assert(bytes@.subrange(0, bytes@.len() as int) =~= bytes@);
    r
}

/// Whether `after` is `before` with one more line.
pub open spec fn one_line_added(before: Seq<String>, after: Seq<String>) -> bool {
    after.len() == before.len() + 1 && after.subrange(0, before.len() as int) == before
}

/// Notes the first 16 bytes at `offset`, or why they could not be read.
fn record_read_preview<R: BlockReader + ?Sized>(
    reader: &R,
    offset: u64,
    label: &str,
    diagnostics: &mut Vec<String>,
)
    ensures
        one_line_added(old(diagnostics)@, final(diagnostics)@),
        reader.reliable() && offset + 16 <= reader.bytes().len() ==> final(diagnostics)@.last()@
            == label@ + ": "@ + spaced_hex(reader.bytes().subrange(offset as int, offset + 16)),
{
    let mut bytes = [0u8; 16];
    let mut line = String::from_str(label);
    line.append(": ");
    match reader.read_exact_at(offset, &mut bytes) {
        Ok(()) => {
            let hex = hex_bytes(&bytes);
            line.append(hex.as_str());
        },
        Err(error) => {
            line.append("read failed: ");
            line.append(error.to_string().as_str());
        },
    }
    diagnostics.push(line);
    assert(final(diagnostics)@.subrange(0, old(diagnostics)@.len() as int) =~= old(diagnostics)@);
}

/// Notes the two Ext magic bytes of the partition at `partition_offset`, or why
/// they could not be read.
fn record_ext_magic<R: BlockReader + ?Sized>(
    reader: &R,
    partition_offset: u64,
    partition_number: u32,
    diagnostics: &mut Vec<String>,
)
    ensures
        one_line_added(old(diagnostics)@, final(diagnostics)@),
        reader.reliable() && partition_offset + 1082 <= reader.bytes().len() && partition_offset
            + 1082 <= u64::MAX ==> final(diagnostics)@.last()@ == "partition "@ + decimal(partition_number as nat)
            + ": Ext magic at +1080="@ + spaced_hex(
            reader.bytes().subrange(partition_offset + 1080, partition_offset + 1082),
        ),
{
    let mut line = String::from_str("partition ");
    push_decimal(&mut line, partition_number as u64);
    if partition_offset > u64::MAX - 1024 {
        line.append(": superblock offset overflow");
    } else if partition_offset + 1024 > u64::MAX - 56 {
        line.append(": Ext magic offset overflow");
    } else {
        let mut magic = [0u8; 2];
        match reader.read_exact_at(partition_offset + 1024 + 56, &mut magic) {
            Ok(()) => {
                let ghost start = line@;
                line.append(": Ext magic at +1080=");
                let hex = hex_bytes(&magic);
                line.append(hex.as_str());
                assert(line@ =~= start + (": Ext magic at +1080="@ + hex@));
                assert(magic@ == reader.bytes().subrange(partition_offset + 1080, partition_offset + 1082));
                assert(line@ == "partition "@ + decimal(partition_number as nat)
            + ": Ext magic at +1080="@ + spaced_hex(
            reader.bytes().subrange(partition_offset + 1080, partition_offset + 1082)));
            },
            Err(error) => {
                line.append(": Ext magic read failed: ");
                line.append(error.to_string().as_str());
            },
        }
    }
    diagnostics.push(line);
    assert(final(diagnostics)@.subrange(0, old(diagnostics)@.len() as int) =~= old(diagnostics)@);
}

/// A read-only filesystem that a probe recognized.
pub struct ProbedFilesystem {
    /// The kind of filesystem, as the backend names it.
    pub kind: String,
    /// The filesystem's details, which can fail to read on their own.
    pub info: Result<FilesystemInfo>,
}

/// Opens read-only filesystem backends on a view of one partition.
pub trait FilesystemProbe {
    fn probe<R: BlockReader + ?Sized + 'static>(&self, source: Arc<PartitionReader<R>>) -> Result<
        ProbedFilesystem,
    >;
}

/// What happened to one partition during a probe.
pub enum PartitionProbe {
    /// Its byte range does not fit the source.
    OutOfRange(Error),
    /// No backend recognized its filesystem.
    Unrecognized(Error),
    /// A backend recognized its filesystem.
    Recognized(ProbedFilesystem),
}

/// The line that records why a partition was not used.
pub open spec fn failure_line(partition: Partition, error: Error) -> Seq<char> {
    "partition "@ + decimal(partition.number as nat) + ": "@ + error.text()
}

/// What the probes of the first `steps.len()` partitions of `partitions` give: the
/// partitions recognized with their details, the lines of those not used, and the
/// error of details that could not be read, which ends the probe.
pub open spec fn probe_scan(partitions: Seq<Partition>, steps: Seq<PartitionProbe>) -> (
    Seq<(Partition, FilesystemInfo)>,
    Seq<Seq<char>>,
    Option<Error>,
)
    decreases steps.len(),
{
    if steps.len() == 0 {
        (Seq::empty(), Seq::empty(), None)
    } else {
        let (found, failed, error) = probe_scan(partitions, steps.drop_last());
        let partition = partitions[steps.len() - 1];
        if error is Some {
            (found, failed, error)
        } else {
            match steps.last() {
                PartitionProbe::OutOfRange(e) => (found, failed.push(failure_line(partition, e)), None),
                PartitionProbe::Unrecognized(e) => (
                    found,
                    failed.push(failure_line(partition, e)),
                    None,
                ),
                PartitionProbe::Recognized(probed) => match probed.info {
                    Ok(info) => (found.push((partition, info)), failed, None),
                    Err(e) => (found, failed, Some(e)),
                },
            }
        }
    }
}

/// The message of a probe in which every partition failed.
pub open spec fn no_partition_text(failed: Seq<Seq<char>>) -> Seq<char> {
    "no supported filesystem partition; "@ + joined(failed, "; "@)
}

/// Whether `results` are the partitions found on drive `disk_index`, in order.
pub open spec fn found_on_disk(
    results: Seq<PhysicalPartitionInfo>,
    disk_index: u32,
    found: Seq<(Partition, FilesystemInfo)>,
) -> bool {
    &&& results.len() == found.len()
    &&& forall|k: int|
        0 <= k < results.len() ==> {
            &&& (#[trigger] results[k]).disk_index == disk_index
            &&& results[k].source_path@ == physical_path_text(disk_index)
            &&& results[k].partition == found[k].0
            &&& results[k].filesystem == found[k].1
        }
}

/// The outcome of probing the `partitions` of drive `disk_index`, given what
/// happened to each: the first details that could not be read end it with their
/// error; else the partitions recognized, unless there are none and some
/// partition failed.
#[verifier::loop_isolation(false)]
pub fn probe_outcome(disk_index: u32, partitions: Vec<Partition>, steps: Vec<PartitionProbe>) -> (r:
    Result<Vec<PhysicalPartitionInfo>>)
    requires
        steps@.len() <= partitions@.len(),
    ensures
        ({
            let (found, failed, error) = probe_scan(partitions@, steps@);
            match error {
                Some(e) => r == Err::<Vec<PhysicalPartitionInfo>, Error>(e),
                None => if found.len() == 0 && failed.len() > 0 {
                    r matches Err(e) && e.kind() == ErrorCategory::UnsupportedFilesystem && e.text()
                        == no_partition_text(failed)
                } else {
                    r matches Ok(results) && found_on_disk(results@, disk_index, found)
                },
            }
        }),
{
    let ghost all_steps = steps@;
    let count = partitions.len();
    let mut steps = steps;
    let mut results: Vec<PhysicalPartitionInfo> = Vec::new();
    let mut failures: Vec<String> = Vec::new();
    let mut i: usize = 0;
    while steps.len() > 0
        invariant
            i + steps@.len() == all_steps.len(),
            all_steps.len() <= partitions@.len(),
            count == partitions@.len(),
            steps@ == all_steps.subrange(i as int, all_steps.len() as int),
            ({
                let (found, failed, error) = probe_scan(partitions@, all_steps.subrange(0, i as int));
                &&& error is None
                &&& found_on_disk(results@, disk_index, found)
                &&& texts(failures@) == failed
            }),
        decreases steps@.len(),
    {
        let ghost prefix = all_steps.subrange(0, i + 1);
        assert(prefix.drop_last() =~= all_steps.subrange(0, i as int));
        assert(prefix.last() == steps@[0]);
        let step = steps.remove(0);
        let partition = partitions[i];
        match step {
            PartitionProbe::OutOfRange(error) => {
                let mut line = String::from_str("partition ");
                push_decimal(&mut line, partition.number as u64);
                line.append(": ");
                line.append(error.to_string().as_str());
                failures.push(line);
                assert(texts(failures@) =~= texts(old_failures(failures@)).push(line@));
            },
            PartitionProbe::Unrecognized(error) => {
                let mut line = String::from_str("partition ");
                push_decimal(&mut line, partition.number as u64);
                line.append(": ");
                line.append(error.to_string().as_str());
                failures.push(line);
                assert(texts(failures@) =~= texts(old_failures(failures@)).push(line@));
            },
            PartitionProbe::Recognized(probed) => match probed.info {
                Ok(info) => {
                    results.push(
                        PhysicalPartitionInfo {
                            disk_index,
                            source_path: physical_disk_path(disk_index),
                            partition,
                            filesystem: info,
                        },
                    );
                },
                Err(error) => {
                    proof {
                        assert(probe_scan(partitions@, prefix).2 == Some(error));
                        lemma_probe_error_persists(partitions@, all_steps, i + 1);
                    }
                    return Err(error);
                },
            },
        }
        i = i + 1;
        assert(steps@ =~= all_steps.subrange(i as int, all_steps.len() as int));
    }
    assert(all_steps.subrange(0, i as int) =~= all_steps);
    if results.len() == 0 && failures.len() > 0 {
        let mut message = String::from_str("no supported filesystem partition; ");
        let listed = join(&failures, "; ");
        message.append(listed.as_str());
        return Err(Error::new(ErrorCategory::UnsupportedFilesystem, message.as_str()));
    }
    Ok(results)
}

/// Once details fail to read, the probe's outcome is that error, whatever the
/// later partitions hold.
proof fn lemma_probe_error_persists(partitions: Seq<Partition>, steps: Seq<PartitionProbe>, n: int)
    requires
        0 <= n <= steps.len(),
        probe_scan(partitions, steps.subrange(0, n)).2 is Some,
    ensures
        probe_scan(partitions, steps).2 == probe_scan(partitions, steps.subrange(0, n)).2,
    decreases steps.len() - n,
{
    if n == steps.len() {
        assert(steps.subrange(0, n) =~= steps);
    } else {
        assert(steps.subrange(0, n + 1).drop_last() =~= steps.subrange(0, n));
        lemma_probe_error_persists(partitions, steps, n + 1);
    }
}

/// Whether a step ends the probe: a recognized filesystem whose details could not
/// be read.
pub open spec fn stop_step(step: PartitionProbe) -> bool {
    step matches PartitionProbe::Recognized(probed) && probed.info is Err
}

/// Whether `steps` cover `partitions`: one step for each partition, unless an
/// earlier step ended the probe, which is then the last step.
pub open spec fn probe_covers(partitions: Seq<Partition>, steps: Seq<PartitionProbe>) -> bool {
    &&& steps.len() <= partitions.len()
    &&& forall|k: int| 0 <= k < steps.len() - 1 ==> !stop_step(#[trigger] steps[k])
    &&& steps.len() == partitions.len() || (steps.len() > 0 && stop_step(steps.last()))
}

/// Whether `step` is what probing partition `p` of the source `reader` with
/// `prober` gives: the error of bounding a reader to it, else the error or the
/// filesystem that the prober reports for that bounded reader.
pub open spec fn probe_step<R: BlockReader + ?Sized + 'static, P: FilesystemProbe>(
    reader: Arc<R>,
    prober: &P,
    p: Partition,
    step: PartitionProbe,
) -> bool {
    exists|bounded: Result<PartitionReader<R>>|
        #[trigger] call_ensures(PartitionReader::<R>::new, (reader, p.byte_offset, p.byte_length), bounded)
            && match bounded {
            Err(e) => step == PartitionProbe::OutOfRange(e),
            Ok(view) => exists|shared: Arc<PartitionReader<R>>, probed: Result<ProbedFilesystem>|
                *shared == view && #[trigger] call_ensures(P::probe::<R>, (prober, shared), probed)
                    && match probed {
                    Err(e) => step == PartitionProbe::Unrecognized(e),
                    Ok(found) => step == PartitionProbe::Recognized(found),
                },
        }
}

/// Where no step ends the probe, the scan has no error and keeps every recognized
/// partition with its details.
proof fn lemma_scan_keeps_recognized(partitions: Seq<Partition>, steps: Seq<PartitionProbe>)
    requires
        steps.len() <= partitions.len(),
        forall|k: int| 0 <= k < steps.len() ==> !stop_step(#[trigger] steps[k]),
    ensures
        probe_scan(partitions, steps).2 is None,
        forall|k: int|
            0 <= k < steps.len() ==> ((#[trigger] steps[k]) matches PartitionProbe::Recognized(probed) ==> (
            probed.info matches Ok(info) && probe_scan(partitions, steps).0.contains((partitions[k], info)))),
    decreases steps.len(),
{
    if steps.len() > 0 {
        let d = steps.drop_last();
        assert forall|k: int| 0 <= k < d.len() implies !stop_step(#[trigger] d[k]) by {
            assert(d[k] == steps[k]);
        }
        lemma_scan_keeps_recognized(partitions, d);
        let (found, failed, error) = probe_scan(partitions, d);
        let last = steps.len() - 1;
        assert(!stop_step(steps[last]));
        let now = probe_scan(partitions, steps).0;
        assert forall|k: int|
            0 <= k < steps.len() implies ((#[trigger] steps[k]) matches PartitionProbe::Recognized(probed) ==> (
            probed.info matches Ok(info) && now.contains((partitions[k], info)))) by {
            if k < last {
                assert(steps[k] == d[k]);
                if let PartitionProbe::Recognized(probed) = steps[k] {
                    let info = probed.info->Ok_0;
                    let j = choose|j: int| 0 <= j < found.len() && found[j] == (partitions[k], info);
                    match steps.last() {
                        PartitionProbe::Recognized(p) => {
                            assert(now[j] == found[j]);
                        },
                        _ => {},
                    }
                }
            } else {
                match steps.last() {
                    PartitionProbe::Recognized(p) => {
                        assert(now[now.len() - 1] == (partitions[k], p.info->Ok_0));
                    },
                    _ => {},
                }
            }
        }
    }
}

/// Where no recognized partition's details fail to read, the probe considers
/// every partition of the layout, and its result lists each partition whose
/// filesystem was recognized, with its details: an unrecognized or out-of-range
/// partition never hides the ones after it.
pub proof fn lemma_probe_lists_every_recognized_partition(
    r: Result<Vec<PhysicalPartitionInfo>>,
    disk_index: u32,
    partitions: Seq<Partition>,
    steps: Seq<PartitionProbe>,
)
    requires
        probe_result_fits(r, disk_index, partitions, steps),
        probe_covers(partitions, steps),
        forall|k: int| 0 <= k < steps.len() ==> !stop_step(#[trigger] steps[k]),
    ensures
        steps.len() == partitions.len(),
        forall|k: int|
            0 <= k < steps.len() ==> ((#[trigger] steps[k]) matches PartitionProbe::Recognized(probed) ==> (
            probed.info matches Ok(info) && r matches Ok(results) && exists|j: int|
                0 <= j < results@.len() && results@[j].partition == partitions[k]
                    && results@[j].filesystem == info)),
{
    if steps.len() > 0 {
        assert(!stop_step(steps.last()));
    }
    lemma_scan_keeps_recognized(partitions, steps);
    let (found, failed, error) = probe_scan(partitions, steps);
    assert forall|k: int|
        0 <= k < steps.len() implies ((#[trigger] steps[k]) matches PartitionProbe::Recognized(probed) ==> (
        probed.info matches Ok(info) && r matches Ok(results) && exists|j: int|
            0 <= j < results@.len() && results@[j].partition == partitions[k]
                && results@[j].filesystem == info)) by {
        if let PartitionProbe::Recognized(probed) = steps[k] {
            let info = probed.info->Ok_0;
            let j = choose|j: int| 0 <= j < found.len() && found[j] == (partitions[k], info);
            assert(found.len() > 0);
            let results = r->Ok_0;
            assert(results@[j].partition == found[j].0);
        }
    }
}

/// Whether `partitions` are the partitions that the layout of `source` lists,
/// read with 512-byte sectors; none for a direct image.
pub open spec fn discovered(source: Seq<u8>, partitions: Seq<Partition>) -> bool {
    match spec_discover(source, 512) {
        Some(LayoutView::DirectImage) => partitions.len() == 0,
        Some(LayoutView::Mbr(listed)) => views(partitions) == listed,
        Some(LayoutView::Gpt(listed)) => views(partitions) == listed,
        None => false,
    }
}

/// Whether `r` is the outcome of probing `partitions` of drive `disk_index`, the
/// first `steps.len()` of them with these results.
pub open spec fn probe_result_fits(
    r: Result<Vec<PhysicalPartitionInfo>>,
    disk_index: u32,
    partitions: Seq<Partition>,
    steps: Seq<PartitionProbe>,
) -> bool {
    let (found, failed, error) = probe_scan(partitions, steps);
    &&& steps.len() <= partitions.len()
    &&& match error {
        Some(e) => r == Err::<Vec<PhysicalPartitionInfo>, Error>(e),
        None => if found.len() == 0 && failed.len() > 0 {
            r matches Err(e) && e.kind() == ErrorCategory::UnsupportedFilesystem && e.text()
                == no_partition_text(failed)
        } else {
            r matches Ok(results) && found_on_disk(results@, disk_index, found)
        },
    }
}

/// The debug form of a partition type, as diagnostics show it.
pub open spec fn type_text(t: PartitionType) -> Seq<char> {
    match t {
        PartitionType::Mbr(kind) => "Mbr("@ + decimal(kind as nat) + ")"@,
        PartitionType::Gpt(guid) => "Gpt(["@ + byte_list(guid@) + "])"@,
    }
}

/// The bytes in decimal, separated by `, `.
pub open spec fn byte_list(bytes: Seq<u8>) -> Seq<char>
    decreases bytes.len(),
{
    if bytes.len() == 0 {
        Seq::empty()
    } else if bytes.len() == 1 {
        decimal(bytes[0] as nat)
    } else {
        byte_list(bytes.drop_last()) + ", "@ + decimal(bytes.last() as nat)
    }
}

fn push_type(line: &mut String, t: PartitionType)
    ensures
        final(line)@ == old(line)@ + type_text(t),
{
    match t {
        PartitionType::Mbr(kind) => {
            line.append("Mbr(");
            push_decimal(line, kind as u64);
            line.append(")");
        },
        PartitionType::Gpt(guid) => {
            line.append("Gpt([");
            let ghost start = line@;
            let mut i: usize = 0;
            while i < 16
                invariant
                    i <= 16,
                    line@ == start + byte_list(guid@.subrange(0, i as int)),
                decreases 16 - i,
            {
                assert(guid@.subrange(0, i + 1).drop_last() =~= guid@.subrange(0, i as int));
                if i > 0 {
                    line.append(", ");
                }
                push_decimal(line, guid[i] as u64);
                i = i + 1;
            }
            assert(guid@.subrange(0, 16) =~= guid@);
            line.append("])");
        },
    }
    assert(final(line)@ =~= old(line)@ + type_text(t));
}

/// `PhysicalDrive` and the drive's index, as diagnostics name a drive.
fn drive_label(disk_index: u32) -> (r: String)
    ensures
        r@ == "PhysicalDrive"@ + decimal(disk_index as nat),
{
    let mut label = String::from_str("PhysicalDrive");
    push_decimal(&mut label, disk_index as u64);
    label
}

/// Whether every partition of `partitions` was found on drive `disk_index`, which
/// it names by its device path.
pub open spec fn on_disk(partitions: Seq<PhysicalPartitionInfo>, disk_index: u32) -> bool {
    forall|k: int|
        0 <= k < partitions.len() ==> (#[trigger] partitions[k]).disk_index == disk_index
            && partitions[k].source_path@ == physical_path_text(disk_index)
}

/// Whether `before` is where `after` starts.
pub open spec fn extends(before: Seq<String>, after: Seq<String>) -> bool {
    before.len() <= after.len() && after.subrange(0, before.len() as int) == before
}

/// Probes physical drive `disk_index` through `reader` with bounded reads and
/// returns the partitions whose filesystem `prober` recognizes, noting what it
/// reads and decides in `diagnostics`.
pub fn probe_physical_partitions_with_diagnostics<R: BlockReader + ?Sized + 'static, P: FilesystemProbe>(
    disk_index: u32,
    reader: Arc<R>,
    prober: &P,
    diagnostics: &mut Vec<String>,
) -> (r: Result<Vec<PhysicalPartitionInfo>>)
    ensures
        extends(old(diagnostics)@, final(diagnostics)@),
        (exists|partitions: Seq<Partition>, steps: Seq<PartitionProbe>|
            discovered((*reader).bytes(), partitions) && #[trigger] probe_result_fits(
                r,
                disk_index,
                partitions,
                steps,
            ) && probe_covers(partitions, steps) && forall|k: int|
                0 <= k < steps.len() ==> #[trigger] probe_step::<R, P>(reader, prober, partitions[k], steps[k]))
            || (r is Err && (!(*reader).reliable() || spec_discover((*reader).bytes(), 512)
            is None)),
        r matches Ok(partitions) ==> on_disk(partitions@, disk_index),
        final(diagnostics)@.len() >= old(diagnostics)@.len() + 2,
        (*reader).reliable() && 16 <= (*reader).bytes().len() ==> final(diagnostics)@[old(diagnostics)@.len() as int]@
            == "LBA 0"@ + ": "@ + spaced_hex((*reader).bytes().subrange(0, 16)),
        (*reader).reliable() && 528 <= (*reader).bytes().len() ==> final(diagnostics)@[old(diagnostics)@.len() + 1int]@
            == "LBA 1"@ + ": "@ + spaced_hex((*reader).bytes().subrange(512, 528)),
        r is Ok ==> final(diagnostics)@.len() >= old(diagnostics)@.len() + 3 && (spec_discover((*reader).bytes(), 512)
            matches Some(layout) && final(diagnostics)@[old(diagnostics)@.len() + 2int]@ == layout_line(disk_index, layout)),
{
    let ghost start = diagnostics@;
    record_read_preview(&*reader, 0, "LBA 0", diagnostics);
    let ghost first = diagnostics@;
    record_read_preview(&*reader, 512, "LBA 1", diagnostics);
    proof {
        lemma_extends_trans(start, first, diagnostics@);
    }
    let ghost mark = diagnostics@;
    proof {
        assert(mark[start.len() as int] == first[start.len() as int]) by {
            assert(mark.subrange(0, first.len() as int)[start.len() as int] == mark[start.len() as int]);
        }
    }
    let drive = drive_label(disk_index);
    let layout = match discover_layout(&*reader, BlockGeometry::raw_image_512()) {
        Ok(layout) => layout,
        Err(error) => {
            proof {
                assert(mark.subrange(0, mark.len() as int) =~= mark);
                lemma_two_previews_kept(start, mark, diagnostics@);
            }
            return Err(error);
        },
    };
    let ghost layout_view = layout@;
    let ghost mut layout_mark: Seq<String> = Seq::empty();
    let partitions = match layout {
        SourceLayout::Mbr { partitions } => {
            let mut line = drive.clone();
            line.append(": layout=MBR");
            diagnostics.push(line);
            proof {
                lemma_extends_push(mark, line);
                lemma_extends_trans(start, mark, diagnostics@);
                layout_mark = diagnostics@;
                assert(line@ == layout_line(disk_index, layout_view));
            }
            partitions
        },
        SourceLayout::Gpt { partitions } => {
            let mut line = drive.clone();
            line.append(": layout=GPT, partitions=");
            push_decimal(&mut line, partitions.len() as u64);
            diagnostics.push(line);
            proof {
                lemma_extends_push(mark, line);
                lemma_extends_trans(start, mark, diagnostics@);
                layout_mark = diagnostics@;
                assert(views(partitions@).len() == partitions@.len());
                assert(line@ == layout_line(disk_index, layout_view));
            }
            partitions
        },
        SourceLayout::DirectImage => {
            let mut line = drive.clone();
            line.append(": layout=direct image; no partition table");
            diagnostics.push(line);
            proof {
                lemma_extends_push(mark, line);
                lemma_extends_trans(start, mark, diagnostics@);
                assert(line@ == layout_line(disk_index, layout_view));
                lemma_two_previews_kept(start, mark, diagnostics@);
                assert(diagnostics@.subrange(0, diagnostics@.len() as int) =~= diagnostics@);
                lemma_layout_line_kept(start, diagnostics@, diagnostics@);
            }
            let empty: Vec<PhysicalPartitionInfo> = Vec::new();
            assert(discovered((*reader).bytes(), Seq::empty()));
            assert(probe_result_fits(Ok(empty), disk_index, Seq::empty(), Seq::empty()));
            return Ok(empty);
        },
    };
    assert(extends(start, diagnostics@));
    assert(layout_mark.len() == start.len() + 3);
    assert(layout_mark[start.len() + 2int]@ == layout_line(disk_index, layout_view));
    assert(extends(mark, layout_mark));
    assert(layout_mark.subrange(0, layout_mark.len() as int) =~= layout_mark);
    assert(discovered((*reader).bytes(), partitions@));
    let mut steps: Vec<PartitionProbe> = Vec::new();
    let mut i: usize = 0;
    while i < partitions.len()
        invariant_except_break
            forall|k: int| 0 <= k < i ==> !stop_step(#[trigger] steps@[k]),
        invariant
            i <= partitions@.len(),
            steps@.len() == i,
            extends(start, diagnostics@),
            extends(layout_mark, diagnostics@),
            forall|k: int|
                0 <= k < i ==> #[trigger] probe_step::<R, P>(reader, prober, partitions@[k], steps@[k]),
            forall|k: int| 0 <= k < i - 1 ==> !stop_step(#[trigger] steps@[k]),
        ensures
            steps@.len() <= partitions@.len(),
            forall|k: int| 0 <= k < steps@.len() - 1 ==> !stop_step(#[trigger] steps@[k]),
            steps@.len() == partitions@.len() || (steps@.len() > 0 && stop_step(steps@.last())),
            extends(start, diagnostics@),
            extends(layout_mark, diagnostics@),
            forall|k: int|
                0 <= k < steps@.len() ==> #[trigger] probe_step::<R, P>(reader, prober, partitions@[k], steps@[k]),
        decreases partitions@.len() - i,
    {
        let ghost before = diagnostics@;
        let partition = partitions[i];
        let mut line = drive.clone();
        line.append(": partition ");
        push_decimal(&mut line, partition.number as u64);
        line.append(" offset=");
        push_decimal(&mut line, partition.byte_offset);
        line.append(" length=");
        push_decimal(&mut line, partition.byte_length);
        line.append(" type=");
        push_type(&mut line, partition.type_identifier);
        diagnostics.push(line);
        proof {
            lemma_extends_push(before, line);
        }
        let ghost after_line = diagnostics@;
        let mut label = String::from_str("partition ");
        push_decimal(&mut label, partition.number as u64);
        label.append(" start");
        record_read_preview(&*reader, partition.byte_offset, label.as_str(), diagnostics);
        let ghost after_preview = diagnostics@;
        record_ext_magic(&*reader, partition.byte_offset, partition.number, diagnostics);
        proof {
            lemma_extends_trans(after_line, after_preview, diagnostics@);
            lemma_extends_trans(before, after_line, diagnostics@);
            lemma_extends_trans(start, before, diagnostics@);
        }
        let ghost probed_mark = diagnostics@;
        assert(probed_mark.subrange(0, probed_mark.len() as int) =~= probed_mark);
        let shared = share(&reader);
        let bounded = PartitionReader::new(shared, partition.byte_offset, partition.byte_length);
        let ghost bounded_result = bounded;
        assert(call_ensures(
            PartitionReader::<R>::new,
            (reader, partition.byte_offset, partition.byte_length),
            bounded_result,
        ));
        let step = match bounded {
            Err(error) => PartitionProbe::OutOfRange(error),
            Ok(view) => {
                let ghost view_value = view;
                let view = Arc::new(view);
                let ghost view_arc = view;
                let probed = prober.probe(view);
                let ghost probed_result = probed;
                assert(*view_arc == view_value);
                assert(call_ensures(P::probe::<R>, (prober, view_arc), probed_result));
                let found_step = match probed {
                    Err(error) => {
                        let mut line = drive.clone();
                        line.append(": partition ");
                        push_decimal(&mut line, partition.number as u64);
                        line.append(" filesystem probe failed: ");
                        line.append(error.to_string().as_str());
                        diagnostics.push(line);
                        proof {
                            lemma_extends_push(probed_mark, line);
                        }
                        PartitionProbe::Unrecognized(error)
                    },
                    Ok(probed) => {
                        let mut line = drive.clone();
                        line.append(": partition ");
                        push_decimal(&mut line, partition.number as u64);
                        line.append(" filesystem probe succeeded (");
                        line.append(probed.kind.as_str());
                        line.append(")");
                        diagnostics.push(line);
                        proof {
                            lemma_extends_push(probed_mark, line);
                        }
                        PartitionProbe::Recognized(probed)
                    },
                };
                assert(probe_step::<R, P>(reader, prober, partitions@[i as int], found_step));
                found_step
            },
        };
        proof {
            assert(extends(probed_mark, diagnostics@));
            lemma_extends_trans(start, probed_mark, diagnostics@);
            lemma_extends_trans(layout_mark, before, probed_mark);
            lemma_extends_trans(layout_mark, probed_mark, diagnostics@);
        }
        assert(probe_step::<R, P>(reader, prober, partitions@[i as int], step));
        let stop = match &step {
            PartitionProbe::Recognized(probed) => probed.info.is_err(),
            _ => false,
        };
        let ghost previous = steps@;
        steps.push(step);
        proof {
            assert forall|k: int| 0 <= k < i + 1 implies #[trigger] probe_step::<R, P>(
                reader,
                prober,
                partitions@[k],
                steps@[k],
            ) by {
                if k < i {
                    assert(steps@[k] == previous[k]);
                }
            }
            assert forall|k: int| 0 <= k < i implies !stop_step(#[trigger] steps@[k]) by {
                assert(steps@[k] == previous[k]);
            }
        }
        i = i + 1;
        if stop {
            break;
        }
    }
    let ghost all_partitions = partitions@;
    let ghost all_steps = steps@;
    let r = probe_outcome(disk_index, partitions, steps);
    assert(probe_result_fits(r, disk_index, all_partitions, all_steps));
    assert(probe_covers(all_partitions, all_steps));
    proof {
        lemma_extends_trans(mark, layout_mark, diagnostics@);
        lemma_two_previews_kept(start, mark, diagnostics@);
        lemma_layout_line_kept(start, layout_mark, diagnostics@);
        if r is Ok {
            let (found, failed, error) = probe_scan(all_partitions, all_steps);
            assert(error is None);
        }
    }
    r
}

/// Probes physical drive `disk_index` through `reader` with bounded reads and
/// returns the partitions whose filesystem `prober` recognizes.
pub fn probe_physical_partitions<R: BlockReader + ?Sized + 'static, P: FilesystemProbe>(
    disk_index: u32,
    reader: Arc<R>,
    prober: &P,
) -> (r: Result<Vec<PhysicalPartitionInfo>>)
    ensures
        (exists|partitions: Seq<Partition>, steps: Seq<PartitionProbe>|
            discovered((*reader).bytes(), partitions) && #[trigger] probe_result_fits(
                r,
                disk_index,
                partitions,
                steps,
            )) || (r is Err && (!(*reader).reliable() || spec_discover((*reader).bytes(), 512)
            is None)),
        r matches Ok(partitions) ==> on_disk(partitions@, disk_index),
{
    let mut diagnostics: Vec<String> = Vec::new();
    probe_physical_partitions_with_diagnostics(disk_index, reader, prober, &mut diagnostics)
}

/// Extension is transitive: what extends an extension of `a` extends `a`.
/// The text of the line that names the layout of physical drive `disk_index`.
pub open spec fn layout_line(disk_index: u32, layout: LayoutView) -> Seq<char> {
    "PhysicalDrive"@ + decimal(disk_index as nat) + match layout {
        LayoutView::Mbr(_) => ": layout=MBR"@,
        LayoutView::Gpt(ps) => ": layout=GPT, partitions="@ + decimal(ps.len()),
        LayoutView::DirectImage => ": layout=direct image; no partition table"@,
    }
}

/// The two preview lines written first stay where they were.
proof fn lemma_two_previews_kept(start: Seq<String>, mark: Seq<String>, after: Seq<String>)
    requires
        mark.len() == start.len() + 2,
        extends(mark, after),
    ensures
        after.len() >= start.len() + 2,
        after[start.len() as int] == mark[start.len() as int],
        after[start.len() + 1int] == mark[start.len() + 1int],
{
    assert(after.subrange(0, mark.len() as int)[start.len() as int] == after[start.len() as int]);
    assert(after.subrange(0, mark.len() as int)[start.len() + 1int] == after[start.len() + 1int]);
}

/// The layout line written third stays where it was.
proof fn lemma_layout_line_kept(start: Seq<String>, layout_mark: Seq<String>, after: Seq<String>)
    requires
        layout_mark.len() == start.len() + 3,
        extends(layout_mark, after),
    ensures
        after.len() >= start.len() + 3,
        after[start.len() + 2int] == layout_mark[start.len() + 2int],
{
    assert(after.subrange(0, layout_mark.len() as int)[start.len() + 2int] == after[start.len() + 2int]);
}

proof fn lemma_extends_trans(a: Seq<String>, b: Seq<String>, c: Seq<String>)
    requires
        extends(a, b),
        extends(b, c),
    ensures
        extends(a, c),
{
    assert(c.subrange(0, a.len() as int) =~= c.subrange(0, b.len() as int).subrange(0, a.len() as int));
}

/// Adding a line extends the lines.
proof fn lemma_extends_push(a: Seq<String>, line: String)
    ensures
        extends(a, a.push(line)),
{
    assert(a.push(line).subrange(0, a.len() as int) =~= a);
}

/// The disk devices of the machine, opened read-only.
pub trait DiskDevices {
    type Reader: BlockReader + 'static;

    /// Opens physical drive `index`.
    fn open_physical(&self, index: u32) -> Result<Self::Reader>;

    /// Opens the volume of drive letter `letter`, an ASCII capital.
    fn open_volume(&self, letter: u8) -> Result<Self::Reader>;
}

/// Whether every partition of `partitions` was found on a drive below `max_index`,
/// which it names by its device path.
pub open spec fn found_below(partitions: Seq<PhysicalPartitionInfo>, max_index: u32) -> bool {
    forall|k: int|
        0 <= k < partitions.len() ==> (#[trigger] partitions[k]).disk_index < max_index
            && partitions[k].source_path@ == physical_path_text(partitions[k].disk_index)
}

/// Whether `found` is what scanning drive `index` adds to a report: nothing where
/// the drive does not open, else the partitions that probing it through the
/// opened reader finds, or nothing where that probe fails.
pub open spec fn drive_partitions<D: DiskDevices, P: FilesystemProbe>(
    devices: &D,
    prober: &P,
    index: u32,
    found: Seq<PhysicalPartitionInfo>,
) -> bool {
    exists|opened: Result<D::Reader>|
        #[trigger] call_ensures(D::open_physical, (devices, index), opened) && match opened {
            Err(_) => found.len() == 0,
            Ok(reader) => exists|
                shared: Arc<D::Reader>,
                notes: &mut Vec<String>,
                probed: Result<Vec<PhysicalPartitionInfo>>,
            |
                *shared == reader && #[trigger] call_ensures(
                    probe_physical_partitions_with_diagnostics::<D::Reader, P>,
                    (index, shared, prober, notes),
                    probed,
                ) && found == match probed {
                    Ok(partitions) => partitions@,
                    Err(_) => Seq::<PhysicalPartitionInfo>::empty(),
                },
        }
}

/// Scans physical drives `0` to `max_index - 1`: opens each read-only, probes
/// its partitions, and notes in the report what it found and why a drive gave
/// nothing. The partitions are those of each drive in drive order.
pub fn scan_physical_partitions<D: DiskDevices, P: FilesystemProbe>(
    devices: &D,
    prober: &P,
    max_index: u32,
) -> (report: PhysicalScanReport)
    ensures
        report.diagnostics@.len() >= max_index,
        found_below(report.partitions@, max_index),
        max_index == 0 ==> report.partitions@.len() == 0 && report.diagnostics@.len() == 0,
        exists|per_drive: Seq<Seq<PhysicalPartitionInfo>>|
            per_drive.len() == max_index && report.partitions@ == per_drive.flatten() && forall|i: u32|
                i < max_index ==> #[trigger] drive_partitions::<D, P>(
                    devices,
                    prober,
                    i,
                    per_drive[i as int],
                ),
{
    let mut report = PhysicalScanReport::default();
    let ghost mut per_drive: Seq<Seq<PhysicalPartitionInfo>> = Seq::empty();
    let mut index: u32 = 0;
    while index < max_index
        invariant
            index <= max_index,
            report.diagnostics@.len() >= index,
            found_below(report.partitions@, index),
            index == 0 ==> report.partitions@.len() == 0 && report.diagnostics@.len() == 0,
            per_drive.len() == index,
            report.partitions@ == per_drive.flatten(),
            forall|i: u32|
                i < index ==> #[trigger] drive_partitions::<D, P>(
                    devices,
                    prober,
                    i,
                    per_drive[i as int],
                ),
        decreases max_index - index,
    {
        let drive = drive_label(index);
        let opened = devices.open_physical(index);
        let ghost opened_result = opened;
        assert(call_ensures(D::open_physical, (devices, index), opened_result));
        let reader = match opened {
            Ok(reader) => {
                let mut line = drive.clone();
                line.append(": opened read-only, size=");
                match reader.len() {
                    Ok(size) => push_decimal(&mut line, size),
                    Err(_) => {},
                }
                line.append(" bytes");
                report.diagnostics.push(line);
                reader
            },
            Err(error) => {
                let mut line = drive.clone();
                line.append(": open failed: ");
                line.append(error.to_string().as_str());
                report.diagnostics.push(line);
                proof {
                    let none = Seq::<PhysicalPartitionInfo>::empty();
                    assert(drive_partitions::<D, P>(devices, prober, index, none));
                    per_drive.lemma_flatten_push(none);
                    assert(report.partitions@ =~= per_drive.flatten() + none);
                    per_drive = per_drive.push(none);
                    assert forall|i: u32| i < index + 1 implies #[trigger] drive_partitions::<D, P>(
                        devices,
                        prober,
                        i,
                        per_drive[i as int],
                    ) by {
                        if i < index {
                            assert(per_drive[i as int] == per_drive.drop_last()[i as int]);
                        }
                    }
                }
                index = index + 1;
                continue;
            },
        };
        let ghost before = report.partitions@;
        let ghost reader_value = reader;
        let shared = Arc::new(reader);
        let ghost shared_reader = shared;
        let probed = probe_physical_partitions_with_diagnostics(
            index,
            shared,
            prober,
            &mut report.diagnostics,
        );
        let ghost probed_result = probed;
        assert(exists|notes: &mut Vec<String>|
            #[trigger] call_ensures(
                probe_physical_partitions_with_diagnostics::<D::Reader, P>,
                (index, shared_reader, prober, notes),
                probed_result,
            ));
        let ghost added: Seq<PhysicalPartitionInfo> = match probed_result {
            Ok(partitions) => partitions@,
            Err(_) => Seq::<PhysicalPartitionInfo>::empty(),
        };
        assert(opened_result == Ok::<D::Reader, Error>(reader_value));
        assert(drive_partitions::<D, P>(devices, prober, index, added));
        match probed {
            Ok(mut partitions) => {
                if partitions.len() == 0 {
                    let mut line = drive.clone();
                    line.append(": no supported filesystem partition");
                    report.diagnostics.push(line);
                    assert(report.partitions@ =~= before + added);
                } else {
                    report.partitions.append(&mut partitions);
                    assert(report.partitions@ =~= before + added);
                    assert forall|k: int| 0 <= k < report.partitions@.len() implies (
                    #[trigger] report.partitions@[k]).disk_index < index + 1
                        && report.partitions@[k].source_path@ == physical_path_text(
                        report.partitions@[k].disk_index,
                    ) by {
                        if k >= before.len() {
                            assert(report.partitions@[k] == added[k - before.len()]);
                        }
                    }
                }
            },
            Err(error) => {
                let mut line = drive.clone();
                line.append(": probe failed: ");
                line.append(error.to_string().as_str());
                report.diagnostics.push(line);
                assert(report.partitions@ =~= before + added);
            },
        }
        proof {
            per_drive.lemma_flatten_push(added);
            per_drive = per_drive.push(added);
            assert forall|i: u32| i < index + 1 implies #[trigger] drive_partitions::<D, P>(
                devices,
                prober,
                i,
                per_drive[i as int],
            ) by {
                if i < index {
                    assert(per_drive[i as int] == per_drive.drop_last()[i as int]);
                }
            }
        }
        index = index + 1;
    }
    report
}

/// The partitions a scan found, or why there are none: the report where it
/// explains that, or the absence of any diagnostics.
pub fn scan_outcome(report: PhysicalScanReport) -> (r: Result<Vec<PhysicalPartitionInfo>>)
    ensures
        report.partitions@.len() > 0 ==> r == Ok::<Vec<PhysicalPartitionInfo>, Error>(
            report.partitions,
        ),
        report.partitions@.len() == 0 && report.diagnostics@.len() == 0 ==> (r matches Err(e)
            && e.kind() == ErrorCategory::StorageAccess && e.text()
            == "physical scan produced no diagnostics"@),
        report.partitions@.len() == 0 && report.diagnostics@.len() > 0 ==> (r matches Err(e)
            && e.kind() == ErrorCategory::UnsupportedFilesystem && e.text() == rendered_report(
            0,
            texts(report.diagnostics@),
        )),
{
    if report.partitions.len() > 0 {
        return Ok(report.partitions);
    }
    if report.diagnostics.len() == 0 {
        return Err(Error::new(ErrorCategory::StorageAccess, "physical scan produced no diagnostics"));
    }
    let rendered = report.render();
    Err(Error::new(ErrorCategory::UnsupportedFilesystem, rendered.as_str()))
}

/// Scans physical drives `0` to `max_index - 1` and returns the partitions found,
/// or an error that explains why there are none.
pub fn discover_physical_partitions_checked<D: DiskDevices, P: FilesystemProbe>(
    devices: &D,
    prober: &P,
    max_index: u32,
) -> (r: Result<Vec<PhysicalPartitionInfo>>)
    ensures
        r matches Ok(partitions) ==> partitions@.len() > 0 && found_below(partitions@, max_index),
        max_index > 0 ==> (r matches Err(e) ==> e.kind() == ErrorCategory::UnsupportedFilesystem),
        max_index == 0 ==> (r matches Err(e) && e.kind() == ErrorCategory::StorageAccess),
        exists|report: PhysicalScanReport|
            #[trigger] call_ensures(scan_physical_partitions::<D, P>, (devices, prober, max_index), report)
                && call_ensures(scan_outcome, (report,), r),
{
    let report = scan_physical_partitions(devices, prober, max_index);
    let ghost scanned = report;
    assert(call_ensures(scan_physical_partitions::<D, P>, (devices, prober, max_index), scanned));
    let r = scan_outcome(report);
    assert(call_ensures(scan_outcome, (scanned,), r));
    r
}

/// Scans physical drives `0` to `max_index - 1` and returns the partitions found,
/// as [`discover_physical_partitions_checked`] gives them; none where it failed.
pub fn discover_physical_partitions<D: DiskDevices, P: FilesystemProbe>(
    devices: &D,
    prober: &P,
    max_index: u32,
) -> (r: Vec<PhysicalPartitionInfo>)
    ensures
        found_below(r@, max_index),
        exists|res: Result<Vec<PhysicalPartitionInfo>>|
            #[trigger] call_ensures(discover_physical_partitions_checked::<D, P>, (devices, prober, max_index), res)
                && r@ == match res {
                Ok(partitions) => partitions@,
                Err(_) => Seq::empty(),
            },
{
    match discover_physical_partitions_checked(devices, prober, max_index) {
        Ok(partitions) => partitions,
        Err(_) => Vec::new(),
    }
}

/// The physical drives `0` to `max_index - 1` that open read-only, in order.
pub fn discover_physical_disks<D: DiskDevices>(devices: &D, max_index: u32) -> (r: Vec<
    PhysicalDiskInfo,
>)
    ensures
        forall|k: int|
            0 <= k < r@.len() ==> (#[trigger] r@[k]).index < max_index && r@[k].source_path@
                == physical_path_text(r@[k].index),
        forall|j: int, k: int| 0 <= j < k < r@.len() ==> r@[j].index < r@[k].index,
        forall|k: int| 0 <= k < r@.len() ==> #[trigger] disk_opened(devices, r@[k]),
        forall|i: u32| i < max_index ==> #[trigger] drive_accounted(devices, r@, i),
{
    let mut disks: Vec<PhysicalDiskInfo> = Vec::new();
    let mut index: u32 = 0;
    while index < max_index
        invariant
            index <= max_index,
            forall|k: int|
                0 <= k < disks@.len() ==> (#[trigger] disks@[k]).index < index
                    && disks@[k].source_path@ == physical_path_text(disks@[k].index),
            forall|j: int, k: int| 0 <= j < k < disks@.len() ==> disks@[j].index < disks@[k].index,
            forall|k: int| 0 <= k < disks@.len() ==> #[trigger] disk_opened(devices, disks@[k]),
            forall|i: u32| i < index ==> #[trigger] drive_accounted(devices, disks@, i),
        decreases max_index - index,
    {
        let ghost before = disks@;
        match devices.open_physical(index) {
            Ok(reader) => {
                let size_bytes = match reader.len() {
                    Ok(size) => size,
                    Err(_) => 0,
                };
                let disk = PhysicalDiskInfo { index, source_path: physical_disk_path(index), size_bytes };
                assert(disk_opened(devices, disk));
                disks.push(disk);
                assert(disks@[before.len() as int].index == index);
                assert forall|i: u32| i < index + 1 implies #[trigger] drive_accounted(devices, disks@, i) by {
                    if i < index {
                        assert(drive_accounted(devices, before, i));
                        if !(exists|e: Error| #[trigger] call_ensures(D::open_physical, (devices, i), Err::<D::Reader, Error>(e))) {
                            let k = choose|k: int| 0 <= k < before.len() && (#[trigger] before[k]).index == i;
                            assert(disks@[k] == before[k]);
                        }
                    } else {
                        assert(disks@[before.len() as int].index == i);
                    }
                }
            },
            Err(_) => {
                assert forall|i: u32| i < index + 1 implies #[trigger] drive_accounted(devices, disks@, i) by {
                    if i < index {
                        assert(drive_accounted(devices, disks@, i));
                    }
                }
            },
        }
        index = index + 1;
    }
    disks
}

/// Whether drive `i` is among `disks`, or did not open.
pub open spec fn drive_accounted<D: DiskDevices>(devices: &D, disks: Seq<PhysicalDiskInfo>, i: u32) -> bool {
    ||| exists|k: int| 0 <= k < disks.len() && (#[trigger] disks[k]).index == i
    ||| exists|e: Error| #[trigger] call_ensures(D::open_physical, (devices, i), Err::<D::Reader, Error>(e))
}

/// Whether `disk` is a drive that `devices` opened: its size is that of what
/// opened, or 0 where that size could not be read.
pub open spec fn disk_opened<D: DiskDevices>(devices: &D, disk: PhysicalDiskInfo) -> bool {
    exists|reader: D::Reader|
        #[trigger] call_ensures(D::open_physical, (devices, disk.index), Ok::<D::Reader, Error>(reader))
            && (disk.size_bytes == reader.bytes().len() || disk.size_bytes == 0) && (reader.reliable()
            ==> disk.size_bytes == reader.bytes().len())
}

/// The device path of the volume of drive letter `letter`.
pub open spec fn volume_path_text(letter: u8) -> Seq<char> {
    "\\\\.\\"@ + seq![letter as char] + ":"@
}

/// Whether `info` describes the whole volume of drive letter `letter`.
pub open spec fn is_volume_source(info: PhysicalPartitionInfo, letter: u8) -> bool {
    &&& info.disk_index == u32::MAX
    &&& info.partition.number == letter as u32
    &&& info.source_path@ == volume_path_text(letter)
    &&& info.partition.byte_offset == 0
    &&& info.partition.type_identifier == PartitionType::Mbr(0x83)
    &&& info.partition.unique_identifier is None
}

/// Whether `prober`, probing a source that reads `bytes`, can give `outcome`.
pub open spec fn probed_as<P: FilesystemProbe, R: BlockReader + 'static>(
    prober: &P,
    bytes: Seq<u8>,
    outcome: Result<ProbedFilesystem>,
) -> bool {
    exists|source: Arc<PartitionReader<R>>|
        (*source).bytes() == bytes && #[trigger] call_ensures(P::probe::<R>, (prober, source), outcome)
}

/// Whether the volume of drive letter `letter` gave no filesystem: it did not
/// open, its reads can fail, or `prober` recognized nothing in it.
pub open spec fn volume_missing<D: DiskDevices, P: FilesystemProbe>(devices: &D, prober: &P, letter: u8) -> bool {
    ||| exists|e: Error| #[trigger] call_ensures(D::open_volume, (devices, letter), Err::<D::Reader, Error>(e))
    ||| exists|reader: D::Reader|
        #[trigger] call_ensures(D::open_volume, (devices, letter), Ok::<D::Reader, Error>(reader)) && (!reader.reliable()
            || exists|outcome: Result<ProbedFilesystem>|
            #[trigger] probed_as::<P, D::Reader>(prober, reader.bytes(), outcome) && (outcome is Err
                || outcome->Ok_0.info is Err))
}

/// Whether `info` is what `prober` recognized in the whole volume of drive
/// letter `letter`.
pub open spec fn volume_found<D: DiskDevices, P: FilesystemProbe>(
    devices: &D,
    prober: &P,
    letter: u8,
    info: PhysicalPartitionInfo,
) -> bool {
    &&& is_volume_source(info, letter)
    &&& exists|reader: D::Reader|
        #[trigger] call_ensures(D::open_volume, (devices, letter), Ok::<D::Reader, Error>(reader))
            && info.partition.byte_length == reader.bytes().len() && exists|probed: ProbedFilesystem|
            #[trigger] probed_as::<P, D::Reader>(prober, reader.bytes(), Ok::<ProbedFilesystem, Error>(probed))
                && probed.info == Ok::<FilesystemInfo, Error>(info.filesystem)
}

/// The volume of drive letter `letter` as a partition of itself, where it opens
/// and holds a filesystem that `prober` recognizes.
fn probe_volume<D: DiskDevices, P: FilesystemProbe>(devices: &D, prober: &P, letter: u8) -> (r:
    Option<PhysicalPartitionInfo>)
    ensures
        match r {
            Some(info) => volume_found(devices, prober, letter, info),
            None => volume_missing(devices, prober, letter),
        },
{
    let opened = devices.open_volume(letter);
    let reader = match opened {
        Ok(reader) => reader,
        Err(_) => return None,
    };
    let ghost opened_reader = reader;
    let size_bytes = match reader.len() {
        Ok(size) => size,
        Err(_) => return None,
    };
    let view = match PartitionReader::new(Arc::new(reader), 0, size_bytes) {
        Ok(view) => view,
        Err(_) => return None,
    };
    assert(view.bytes() =~= opened_reader.bytes());
    let source = Arc::new(view);
    let ghost probe_source = source;
    let outcome = prober.probe(source);
    assert(probed_as::<P, D::Reader>(prober, opened_reader.bytes(), outcome));
    let probed = match outcome {
        Ok(probed) => probed,
        Err(_) => return None,
    };
    let ghost probed_filesystem = probed;
    let filesystem = match probed.info {
        Ok(filesystem) => filesystem,
        Err(_) => return None,
    };
    let mut path = String::from_str("\\\\.\\");
    push_char(&mut path, letter as char);
    push_char(&mut path, ':');
    proof {
        reveal_strlit(":");
    }
    assert(path@ =~= volume_path_text(letter));
    let partition = Partition {
        number: letter as u32,
        byte_offset: 0,
        byte_length: size_bytes,
        type_identifier: PartitionType::Mbr(0x83),
        unique_identifier: None,
    };
    let info = PhysicalPartitionInfo { disk_index: u32::MAX, source_path: path, partition, filesystem };
    assert(probed_filesystem.info == Ok::<FilesystemInfo, Error>(info.filesystem));
    Some(info)
}

/// The drive-letter volumes `A:` to `Z:` that hold a filesystem `prober`
/// recognizes, each as a partition of its whole volume, for systems where
/// raw-disk enumeration does not show the Linux partitions.
pub fn discover_volume_partitions<D: DiskDevices, P: FilesystemProbe>(devices: &D, prober: &P) -> (r:
    Vec<PhysicalPartitionInfo>)
    ensures
        forall|k: int|
            0 <= k < r@.len() ==> 65 <= (#[trigger] r@[k]).partition.number <= 90
                && is_volume_source(r@[k], r@[k].partition.number as u8),
        forall|j: int, k: int|
            0 <= j < k < r@.len() ==> r@[j].partition.number < r@[k].partition.number,
        forall|k: int|
            0 <= k < r@.len() ==> volume_found(devices, prober, (#[trigger] r@[k]).partition.number as u8, r@[k]),
        forall|letter: u8|
            65 <= letter <= 90 ==> (exists|k: int| 0 <= k < r@.len() && (#[trigger] r@[k]).partition.number == letter)
                || #[trigger] volume_missing(devices, prober, letter),
{
    let mut found: Vec<PhysicalPartitionInfo> = Vec::new();
    let mut letter: u8 = 65;
    while letter <= 90
        invariant
            65 <= letter <= 91,
            forall|k: int|
                0 <= k < found@.len() ==> 65 <= (#[trigger] found@[k]).partition.number < letter
                    && is_volume_source(found@[k], found@[k].partition.number as u8),
            forall|j: int, k: int|
                0 <= j < k < found@.len() ==> found@[j].partition.number < found@[k].partition.number,
            forall|k: int|
                0 <= k < found@.len() ==> volume_found(devices, prober, (#[trigger] found@[k]).partition.number as u8, found@[k]),
            forall|l: u8|
                65 <= l < letter ==> (exists|k: int| 0 <= k < found@.len() && (#[trigger] found@[k]).partition.number == l)
                    || #[trigger] volume_missing(devices, prober, l),
        decreases 91 - letter,
    {
        let ghost before = found@;
        match probe_volume(devices, prober, letter) {
            Some(info) => {
                found.push(info);
                assert(found@[before.len() as int].partition.number == letter);
                assert forall|l: u8| 65 <= l < letter + 1 implies (exists|k: int| 0 <= k < found@.len() && (#[trigger] found@[k]).partition.number == l)
                    || #[trigger] volume_missing(devices, prober, l) by {
                    if l < letter && !volume_missing(devices, prober, l) {
                        let k = choose|k: int| 0 <= k < before.len() && (#[trigger] before[k]).partition.number == l;
                        assert(found@[k] == before[k]);
                    }
                }
            },
            None => {},
        }
        letter = letter + 1;
    }
    found
}

/// `lines` without its last entry.
spec fn old_failures(lines: Seq<String>) -> Seq<String> {
    lines.drop_last()
}

} // verus!
