use vstd::prelude::*;

use crate::block::{BlockGeometry, BlockReader};
use crate::bytes::{le_u32, le_u64};
use crate::error::{Error, ErrorCategory};

pub mod crc32;
pub mod gpt;
pub mod mbr;

verus! {

/// How a partition's type is recorded by its table.
#[derive(Debug, Clone, Copy, PartialEq, Eq)]
pub enum PartitionType {
    Mbr(u8),
    Gpt([u8; 16]),
}

/// One validated partition: its one-based table number and its byte range in the source.
#[derive(Debug, Clone, Copy, PartialEq, Eq)]
pub struct Partition {
    pub number: u32,
    pub byte_offset: u64,
    pub byte_length: u64,
    pub type_identifier: PartitionType,
    pub unique_identifier: Option<[u8; 16]>,
}

/// How a source is laid out.
#[derive(Debug, Clone, PartialEq, Eq)]
pub enum SourceLayout {
    DirectImage,
    Mbr { partitions: Vec<Partition> },
    Gpt { partitions: Vec<Partition> },
}

/// A partition type as plain values.
pub enum TypeView {
    Mbr(u8),
    Gpt(Seq<u8>),
}

/// A partition as plain values.
pub struct PartitionView {
    pub number: u32,
    pub byte_offset: u64,
    pub byte_length: u64,
    pub type_identifier: TypeView,
    pub unique_identifier: Option<Seq<u8>>,
}

/// A layout as plain values.
pub enum LayoutView {
    DirectImage,
    Mbr(Seq<PartitionView>),
    Gpt(Seq<PartitionView>),
}

impl View for PartitionType {
    type V = TypeView;

    open spec fn view(&self) -> TypeView {
        match self {
            PartitionType::Mbr(k) => TypeView::Mbr(*k),
            PartitionType::Gpt(g) => TypeView::Gpt(g@),
        }
    }
}

impl View for Partition {
    type V = PartitionView;

    open spec fn view(&self) -> PartitionView {
        PartitionView {
            number: self.number,
            byte_offset: self.byte_offset,
            byte_length: self.byte_length,
            type_identifier: self.type_identifier@,
            unique_identifier: match self.unique_identifier {
                Some(g) => Some(g@),
                None => None,
            },
        }
    }
}

/// The plain values of a list of partitions.
pub open spec fn views(partitions: Seq<Partition>) -> Seq<PartitionView> {
    partitions.map_values(|p: Partition| p@)
}

impl View for SourceLayout {
    type V = LayoutView;

    open spec fn view(&self) -> LayoutView {
        match self {
            SourceLayout::DirectImage => LayoutView::DirectImage,
            SourceLayout::Mbr { partitions } => LayoutView::Mbr(views(partitions@)),
            SourceLayout::Gpt { partitions } => LayoutView::Gpt(views(partitions@)),
        }
    }
}

/// Copies the 16 bytes at `at` into a GUID.
pub fn guid_at(bytes: &[u8], at: usize) -> (g: [u8; 16])
    requires
        at + 16 <= bytes@.len(),
    ensures
        g@ == bytes@.subrange(at as int, at + 16),
{
    let mut g = [0u8; 16];
    let mut i: usize = 0;
    while i < 16
        invariant
            i <= 16,
            at + 16 <= bytes.len(),
            forall|j: int| 0 <= j < i ==> g@[j] == bytes@[at + j],
        decreases 16 - i,
    {
        g[i] = bytes[at + i];
        i = i + 1;
    }
    assert(g@ =~= bytes@.subrange(at as int, at + 16));
    g
}


/// The smallest source that can hold a partition table.
pub const MIN_TABLE_SOURCE_LEN: u64 = 512;

/// The layout of `source` read with `sector_size`-byte sectors, or `None` where a
/// partition table signature is present but the table is not valid (or is an MBR
/// that lists no partition). A GPT header at LBA 1 takes precedence over the MBR;
/// a source with neither signature is a direct filesystem image.
pub open spec fn spec_discover(source: Seq<u8>, sector_size: int) -> Option<LayoutView> {
    let zero_len = if source.len() < sector_size {
        source.len() as int
    } else {
        sector_size
    };
    let sector_zero = source.take(zero_len);
    let sector_one = source.subrange(sector_size, 2 * sector_size);
    if source.len() < MIN_TABLE_SOURCE_LEN {
        Some(LayoutView::DirectImage)
    } else if source.len() >= 2 * sector_size && gpt::has_gpt_signature(sector_one) {
        match gpt::spec_parse(source, sector_size, sector_one) {
            None => None,
            Some(ps) => Some(LayoutView::Gpt(ps)),
        }
    } else if mbr::has_mbr_signature(sector_zero) {
        match mbr::spec_parse(source, sector_size, sector_zero) {
            None => None,
            Some(ps) => if ps.len() == 0 {
                None
            } else {
                Some(LayoutView::Mbr(ps))
            },
        }
    } else {
        Some(LayoutView::DirectImage)
    }
}

/// Whether every partition is a non-empty byte range inside a source of
/// `source_len` bytes.
pub open spec fn within(partitions: Seq<PartitionView>, source_len: int) -> bool {
    forall|k: int|
        0 <= k < partitions.len() ==> 0 < (#[trigger] partitions[k]).byte_length
            && partitions[k].byte_offset + partitions[k].byte_length <= source_len
}

proof fn lemma_within_push(found: Seq<PartitionView>, p: PartitionView, source_len: int)
    requires
        within(found, source_len),
        0 < p.byte_length,
        p.byte_offset + p.byte_length <= source_len,
    ensures
        within(found.push(p), source_len),
{
    assert forall|k: int| 0 <= k < found.push(p).len() implies 0 < (#[trigger] found.push(p)[k]).byte_length
        && found.push(p)[k].byte_offset + found.push(p)[k].byte_length <= source_len by {
        if k < found.len() {
            assert(found.push(p)[k] == found[k]);
        }
    }
}

/// A byte range that `spec_byte_range` accepts is non-empty and inside the source.
proof fn lemma_byte_range_inside(source_len: int, sector_size: int, start: int, count: int)
    requires
        0 < sector_size,
        0 <= start,
        0 <= count,
        source_len <= u64::MAX,
    ensures
        spec_byte_range_fits(source_len, sector_size, start, count),
{
    if count != 0 && start * sector_size + count * sector_size <= source_len {
        assert(0 <= start * sector_size) by (nonlinear_arith)
            requires
                0 <= start,
                0 < sector_size,
        ;
        assert(0 < count * sector_size) by (nonlinear_arith)
            requires
                0 < count,
                0 < sector_size,
        ;
    }
}

/// Where `spec_byte_range` gives a range, it is non-empty and inside the source.
pub open spec fn spec_byte_range_fits(source_len: int, sector_size: int, start: int, count: int) -> bool {
    match mbr::spec_byte_range(source_len, sector_size, start, count) {
        Some((offset, length)) => 0 < length && offset + length <= source_len,
        None => true,
    }
}

proof fn lemma_primary_within(source_len: int, sector_size: int, sector: Seq<u8>, n: nat)
    requires
        0 < sector_size,
        source_len <= u64::MAX,
    ensures
        mbr::spec_primary(source_len, sector_size, sector, n) matches Some((found, _)) ==> within(
            found,
            source_len,
        ),
    decreases n,
{
    if n > 0 {
        lemma_primary_within(source_len, sector_size, sector, (n - 1) as nat);
        let (kind, start, count) = mbr::spec_entry(sector, n - 1);
        lemma_byte_range_inside(source_len, sector_size, start as int, count as int);
        match mbr::spec_primary(source_len, sector_size, sector, (n - 1) as nat) {
            Some((found, extended)) => {
                match mbr::spec_byte_range(source_len, sector_size, start as int, count as int) {
                    Some((offset, length)) => {
                        lemma_within_push(
                            found,
                            PartitionView {
                                number: n as u32,
                                byte_offset: offset,
                                byte_length: length,
                                type_identifier: TypeView::Mbr(kind),
                                unique_identifier: None,
                            },
                            source_len,
                        );
                    },
                    None => {},
                }
            },
            None => {},
        }
    }
}

proof fn lemma_ebr_walk_within(
    source: Seq<u8>,
    sector_size: int,
    base: int,
    end: int,
    current: int,
    visited: Seq<u64>,
    index: nat,
    found: Seq<PartitionView>,
)
    requires
        0 < sector_size,
        0 <= base,
        source.len() <= u64::MAX,
        within(found, source.len() as int),
    ensures
        mbr::spec_ebr_walk(source, sector_size, base, end, current, visited, index, found) matches Some(
            ps,
        ) ==> within(ps, source.len() as int),
    decreases mbr::MAX_EBR_CHAIN_LENGTH - index,
{
    let sector = source.subrange(current * sector_size, current * sector_size + sector_size);
    let first = mbr::spec_entry(sector, 0);
    let logical = current + first.1;
    let range = mbr::spec_byte_range(source.len() as int, sector_size, logical, first.2 as int);
    if index < mbr::MAX_EBR_CHAIN_LENGTH && base <= current {
        lemma_byte_range_inside(source.len() as int, sector_size, logical, first.2 as int);
        let next_found = if mbr::is_empty_entry(first) {
            found
        } else {
            found.push(
                PartitionView {
                    number: (5 + found.len()) as u32,
                    byte_offset: range.unwrap().0,
                    byte_length: range.unwrap().1,
                    type_identifier: TypeView::Mbr(first.0),
                    unique_identifier: None,
                },
            )
        };
        if !mbr::is_empty_entry(first) && range is Some {
            lemma_within_push(
                found,
                PartitionView {
                    number: (5 + found.len()) as u32,
                    byte_offset: range.unwrap().0,
                    byte_length: range.unwrap().1,
                    type_identifier: TypeView::Mbr(first.0),
                    unique_identifier: None,
                },
                source.len() as int,
            );
        }
        let second = mbr::spec_entry(sector, 1);
        if index + 1 < mbr::MAX_EBR_CHAIN_LENGTH && within(next_found, source.len() as int) {
            lemma_ebr_walk_within(
                source,
                sector_size,
                base,
                end,
                base + second.1,
                visited.push(current as u64),
                index + 1,
                next_found,
            );
        }
    }
}

proof fn lemma_entries_within(
    entries: Seq<u8>,
    header: gpt::Header,
    sector_size: int,
    source_len: int,
    count: nat,
)
    requires
        0 < sector_size,
        source_len <= u64::MAX,
    ensures
        gpt::spec_entries(entries, header, sector_size, source_len, count) matches Some(ps) ==> within(
            ps,
            source_len,
        ),
    decreases count,
{
    if count > 0 {
        lemma_entries_within(entries, header, sector_size, source_len, (count - 1) as nat);
        let index = count - 1;
        let start = index * header.entry_size;
        let first_lba = le_u64(entries, start + 32);
        let last_lba = le_u64(entries, start + 40);
        let byte_offset = first_lba * sector_size;
        let byte_length = (last_lba - first_lba + 1) * sector_size;
        assert(0 <= byte_offset) by (nonlinear_arith)
            requires
                0 <= first_lba,
                0 < sector_size,
                byte_offset == first_lba * sector_size,
        ;
        if first_lba <= last_lba {
            assert(0 < byte_length) by (nonlinear_arith)
                requires
                    first_lba <= last_lba,
                    0 < sector_size,
                    byte_length == (last_lba - first_lba + 1) * sector_size,
            ;
        }
        match gpt::spec_entries(entries, header, sector_size, source_len, (count - 1) as nat) {
            Some(found) => match gpt::entry_outcome(entries, header, sector_size, source_len, index) {
                gpt::EntryOutcome::Used(p) => lemma_within_push(found, p, source_len),
                _ => {},
            },
            None => {},
        }
    }
}

/// Every partition that a partition table yields is a non-empty byte range inside
/// the source, so that reading a partition never reads past the source.
pub proof fn lemma_discovered_partitions_lie_inside(source: Seq<u8>, sector_size: int)
    requires
        0 < sector_size,
        source.len() <= u64::MAX,
    ensures
        spec_discover(source, sector_size) matches Some(LayoutView::Mbr(ps)) ==> within(
            ps,
            source.len() as int,
        ),
        spec_discover(source, sector_size) matches Some(LayoutView::Gpt(ps)) ==> within(
            ps,
            source.len() as int,
        ),
{
    let sector_one = source.subrange(sector_size, 2 * sector_size);
    match gpt::spec_header(source.len() as int, sector_size, sector_one) {
        Some(h) => {
            let offset = h.entries_lba * sector_size;
            let entries = source.subrange(offset, offset + h.entry_count * h.entry_size);
            lemma_entries_within(entries, h, sector_size, source.len() as int, h.entry_count as nat);
        },
        None => {},
    }
    let zero_len = if source.len() < sector_size {
        source.len() as int
    } else {
        sector_size
    };
    let sector_zero = source.take(zero_len);
    lemma_primary_within(source.len() as int, sector_size, sector_zero, 4);
    match mbr::spec_primary(source.len() as int, sector_size, sector_zero, 4) {
        Some((primary, Some((base, count)))) => {
            lemma_ebr_walk_within(
                source,
                sector_size,
                base as int,
                base + count,
                base as int,
                Seq::empty(),
                0,
                Seq::empty(),
            );
            match mbr::spec_ebr_chain(source, sector_size, base as int, count as int) {
                Some(logical) => {
                    assert forall|k: int| 0 <= k < (primary + logical).len() implies 0 < (#[trigger] (
                    primary + logical)[k]).byte_length && (primary + logical)[k].byte_offset + (primary
                        + logical)[k].byte_length <= source.len() by {
                        if k >= primary.len() {
                            assert((primary + logical)[k] == logical[k - primary.len()]);
                        }
                    }
                },
                None => {},
            }
        },
        _ => {},
    }
}

/// Whether the partition numbers strictly increase along `partitions`.
pub open spec fn numbers_increase(partitions: Seq<PartitionView>) -> bool {
    forall|i: int, j: int|
        0 <= i < j < partitions.len() ==> (#[trigger] partitions[i]).number < (
        #[trigger] partitions[j]).number
}

/// Whether no partition number exceeds `bound`.
pub open spec fn numbers_at_most(partitions: Seq<PartitionView>, bound: int) -> bool {
    forall|k: int| 0 <= k < partitions.len() ==> (#[trigger] partitions[k]).number <= bound
}

/// Whether the partitions are numbered 5, 6, 7, ... in order.
pub open spec fn numbered_from_five(partitions: Seq<PartitionView>) -> bool {
    forall|k: int| 0 <= k < partitions.len() ==> (#[trigger] partitions[k]).number == 5 + k
}

proof fn lemma_increase_push(found: Seq<PartitionView>, p: PartitionView, bound: int)
    requires
        numbers_increase(found),
        numbers_at_most(found, bound),
        bound < p.number,
    ensures
        numbers_increase(found.push(p)),
        numbers_at_most(found.push(p), p.number as int),
{
    let all = found.push(p);
    assert forall|i: int, j: int| 0 <= i < j < all.len() implies (#[trigger] all[i]).number < (
    #[trigger] all[j]).number by {
        assert(all[i] == found[i]);
        if j < found.len() {
            assert(all[j] == found[j]);
        }
    }
    assert forall|k: int| 0 <= k < all.len() implies (#[trigger] all[k]).number <= p.number by {
        if k < found.len() {
            assert(all[k] == found[k]);
        }
    }
}

proof fn lemma_primary_numbered(source_len: int, sector_size: int, sector: Seq<u8>, n: nat)
    requires
        n <= 4,
    ensures
        mbr::spec_primary(source_len, sector_size, sector, n) matches Some((found, _)) ==> (
        numbers_increase(found) && numbers_at_most(found, n as int)),
    decreases n,
{
    if n > 0 {
        lemma_primary_numbered(source_len, sector_size, sector, (n - 1) as nat);
        let (kind, start, count) = mbr::spec_entry(sector, n - 1);
        match mbr::spec_primary(source_len, sector_size, sector, (n - 1) as nat) {
            Some((found, extended)) => {
                assert(numbers_at_most(found, n as int));
                match mbr::spec_byte_range(source_len, sector_size, start as int, count as int) {
                    Some((offset, length)) => {
                        lemma_increase_push(
                            found,
                            PartitionView {
                                number: n as u32,
                                byte_offset: offset,
                                byte_length: length,
                                type_identifier: TypeView::Mbr(kind),
                                unique_identifier: None,
                            },
                            n - 1,
                        );
                    },
                    None => {},
                }
            },
            None => {},
        }
    }
}

proof fn lemma_ebr_walk_numbered(
    source: Seq<u8>,
    sector_size: int,
    base: int,
    end: int,
    current: int,
    visited: Seq<u64>,
    index: nat,
    found: Seq<PartitionView>,
)
    requires
        numbered_from_five(found),
        found.len() <= index,
    ensures
        mbr::spec_ebr_walk(source, sector_size, base, end, current, visited, index, found) matches Some(
            ps,
        ) ==> numbered_from_five(ps),
    decreases mbr::MAX_EBR_CHAIN_LENGTH - index,
{
    let sector = source.subrange(current * sector_size, current * sector_size + sector_size);
    let first = mbr::spec_entry(sector, 0);
    let logical = current + first.1;
    let range = mbr::spec_byte_range(source.len() as int, sector_size, logical, first.2 as int);
    if index < mbr::MAX_EBR_CHAIN_LENGTH {
        let p = PartitionView {
            number: (5 + found.len()) as u32,
            byte_offset: range.unwrap().0,
            byte_length: range.unwrap().1,
            type_identifier: TypeView::Mbr(first.0),
            unique_identifier: None,
        };
        let next_found = if mbr::is_empty_entry(first) {
            found
        } else {
            found.push(p)
        };
        assert(numbered_from_five(next_found)) by {
            if !mbr::is_empty_entry(first) {
                assert forall|k: int| 0 <= k < next_found.len() implies (
                #[trigger] next_found[k]).number == 5 + k by {
                    if k < found.len() {
                        assert(next_found[k] == found[k]);
                    }
                }
            }
        }
        let second = mbr::spec_entry(sector, 1);
        if index + 1 < mbr::MAX_EBR_CHAIN_LENGTH {
            lemma_ebr_walk_numbered(
                source,
                sector_size,
                base,
                end,
                base + second.1,
                visited.push(current as u64),
                index + 1,
                next_found,
            );
        }
    }
}

proof fn lemma_entries_numbered(
    entries: Seq<u8>,
    header: gpt::Header,
    sector_size: int,
    source_len: int,
    count: nat,
)
    requires
        count <= u32::MAX,
    ensures
        gpt::spec_entries(entries, header, sector_size, source_len, count) matches Some(ps) ==> (
        numbers_increase(ps) && numbers_at_most(ps, count as int)),
    decreases count,
{
    if count > 0 {
        lemma_entries_numbered(entries, header, sector_size, source_len, (count - 1) as nat);
        match gpt::spec_entries(entries, header, sector_size, source_len, (count - 1) as nat) {
            Some(found) => {
                assert(numbers_at_most(found, count as int));
                match gpt::entry_outcome(entries, header, sector_size, source_len, count - 1) {
                    gpt::EntryOutcome::Used(p) => {
                        assert(p.number == count);
                        lemma_increase_push(found, p, count - 1);
                    },
                    _ => {},
                }
            },
            None => {},
        }
    }
}

/// Partition numbers strictly increase along every table that a source yields:
/// primary MBR partitions keep their slot numbers 1 to 4, logical partitions are
/// numbered from 5 in chain order, and GPT partitions keep their one-based entry
/// index.
pub proof fn lemma_discovered_partition_numbers_increase(source: Seq<u8>, sector_size: int)
    requires
        0 < sector_size,
    ensures
        spec_discover(source, sector_size) matches Some(LayoutView::Mbr(ps)) ==> numbers_increase(
            ps,
        ),
        spec_discover(source, sector_size) matches Some(LayoutView::Gpt(ps)) ==> numbers_increase(
            ps,
        ),
{
    let sector_one = source.subrange(sector_size, 2 * sector_size);
    match gpt::spec_header(source.len() as int, sector_size, sector_one) {
        Some(h) => {
            let offset = h.entries_lba * sector_size;
            let entries = source.subrange(offset, offset + h.entry_count * h.entry_size);
            lemma_entries_numbered(entries, h, sector_size, source.len() as int, h.entry_count as nat);
        },
        None => {},
    }
    let zero_len = if source.len() < sector_size {
        source.len() as int
    } else {
        sector_size
    };
    let sector_zero = source.take(zero_len);
    lemma_primary_numbered(source.len() as int, sector_size, sector_zero, 4);
    match mbr::spec_primary(source.len() as int, sector_size, sector_zero, 4) {
        Some((primary, Some((base, count)))) => {
            lemma_ebr_walk_numbered(
                source,
                sector_size,
                base as int,
                base + count,
                base as int,
                Seq::empty(),
                0,
                Seq::empty(),
            );
            match mbr::spec_ebr_chain(source, sector_size, base as int, count as int) {
                Some(logical) => {
                    let all = primary + logical;
                    assert forall|i: int, j: int| 0 <= i < j < all.len() implies (
                    #[trigger] all[i]).number < (#[trigger] all[j]).number by {
                        if i >= primary.len() {
                            assert(all[i] == logical[i - primary.len()]);
                            assert(all[j] == logical[j - primary.len()]);
                        } else if j >= primary.len() {
                            assert(all[i] == primary[i]);
                            assert(all[j] == logical[j - primary.len()]);
                        } else {
                            assert(all[i] == primary[i]);
                            assert(all[j] == primary[j]);
                        }
                    }
                },
                None => {},
            }
        },
        _ => {},
    }
}

/// Whether partition `p` carries the GUIDs of its own entry in `entries`, an
/// array of `entry_size`-byte entries: entry `number - 1`, whose first 16 bytes
/// are the type GUID and the next 16 the unique GUID.
pub open spec fn carries_entry_guids(entries: Seq<u8>, entry_size: int, p: PartitionView) -> bool {
    let start = (p.number - 1) * entry_size;
    &&& p.number >= 1
    &&& p.type_identifier == TypeView::Gpt(entries.subrange(start, start + 16))
    &&& p.unique_identifier == Some(entries.subrange(start + 16, start + 32))
}

proof fn lemma_entries_carry_guids(
    entries: Seq<u8>,
    header: gpt::Header,
    sector_size: int,
    source_len: int,
    count: nat,
)
    requires
        count <= u32::MAX,
    ensures
        gpt::spec_entries(entries, header, sector_size, source_len, count) matches Some(ps) ==> (
        forall|k: int|
            0 <= k < ps.len() ==> (#[trigger] ps[k]).number <= count && carries_entry_guids(
                entries,
                header.entry_size as int,
                ps[k],
            )),
    decreases count,
{
    if count > 0 {
        lemma_entries_carry_guids(entries, header, sector_size, source_len, (count - 1) as nat);
        match gpt::spec_entries(entries, header, sector_size, source_len, (count - 1) as nat) {
            Some(found) => match gpt::entry_outcome(entries, header, sector_size, source_len, count - 1) {
                gpt::EntryOutcome::Used(p) => {
                    assert(p.number == count);
                    let all = found.push(p);
                    assert forall|k: int| 0 <= k < all.len() implies (#[trigger] all[k]).number <= count
                        && carries_entry_guids(entries, header.entry_size as int, all[k]) by {
                        if k < found.len() {
                            assert(all[k] == found[k]);
                        }
                    }
                },
                _ => {},
            },
            None => {},
        }
    }
}

/// Every GPT partition carries the GUIDs recorded in its own entry: with the
/// header at LBA 1 locating the entry array at LBA `entries_lba` (its bytes 72
/// to 80) in entries of `entry_size` bytes (its bytes 84 to 88), partition
/// `number` has as type GUID the first 16 bytes of entry `number - 1`, and as
/// unique GUID the 16 bytes after them.
pub proof fn lemma_gpt_partitions_carry_their_entry_guids(source: Seq<u8>, sector_size: int)
    requires
        0 < sector_size,
    ensures
        spec_discover(source, sector_size) matches Some(LayoutView::Gpt(ps)) ==> forall|k: int|
            0 <= k < ps.len() ==> {
                let header = source.subrange(sector_size, 2 * sector_size);
                let at = le_u64(header, 72) * sector_size + ((#[trigger] ps[k]).number - 1) * le_u32(
                    header,
                    84,
                );
                &&& ps[k].number >= 1
                &&& ps[k].type_identifier == TypeView::Gpt(source.subrange(at, at + 16))
                &&& ps[k].unique_identifier == Some(source.subrange(at + 16, at + 32))
            },
{
    let sector_one = source.subrange(sector_size, 2 * sector_size);
    match gpt::spec_header(source.len() as int, sector_size, sector_one) {
        Some(h) => {
            let offset = h.entries_lba * sector_size;
            let size = h.entry_size as int;
            let entries = source.subrange(offset, offset + h.entry_count * size);
            lemma_entries_carry_guids(entries, h, sector_size, source.len() as int, h.entry_count as nat);
            match spec_discover(source, sector_size) {
                Some(LayoutView::Gpt(ps)) => {
                assert(source.len() >= 2 * sector_size && gpt::has_gpt_signature(sector_one));
                assert(gpt::spec_parse(source, sector_size, sector_one) == Some(ps));
                assert(0 <= offset) by (nonlinear_arith)
                    requires
                        0 <= h.entries_lba,
                        0 < sector_size,
                        offset == h.entries_lba * sector_size,
                ;
                assert forall|k: int| 0 <= k < ps.len() implies {
                    let at = le_u64(sector_one, 72) * sector_size + ((#[trigger] ps[k]).number - 1) * le_u32(
                        sector_one,
                        84,
                    );
                    &&& ps[k].number >= 1
                    &&& ps[k].type_identifier == TypeView::Gpt(source.subrange(at, at + 16))
                    &&& ps[k].unique_identifier == Some(source.subrange(at + 16, at + 32))
                } by {
                    let n = ps[k].number - 1;
                    let start = n * size;
                    assert(carries_entry_guids(entries, size, ps[k]));
                    assert(0 <= n < h.entry_count);
                    assert(0 <= start && start + size <= h.entry_count * size) by (nonlinear_arith)
                        requires
                            0 <= n < h.entry_count,
                            size >= 32,
                            start == n * size,
                    ;
                    assert(le_u64(sector_one, 72) == h.entries_lba && le_u32(sector_one, 84) == h.entry_size);
                    assert(entries.subrange(start, start + 16) =~= source.subrange(offset + start, offset + start + 16));
                    assert(entries.subrange(start + 16, start + 32) =~= source.subrange(
                        offset + start + 16,
                        offset + start + 32,
                    ));
                }
                },
                _ => {},
            }
        },
        None => {},
    }
}

/// The sector of the EBR `link` sectors into the extended container that starts
/// at LBA `base`.
pub open spec fn ebr_sector(source: Seq<u8>, sector_size: int, base: int, link: int) -> Seq<u8> {
    source.subrange((base + link) * sector_size, (base + link) * sector_size + sector_size)
}

/// Whether `source` holds a well-formed chain of EBRs in the extended container
/// of `count` sectors at LBA `base`: EBR `j` lies `links[j]` sectors into the
/// container, the first at its start, and no two at one place; each carries the
/// signature, one logical partition in its first entry (placed relative to that
/// EBR) that lies inside the container, nothing in its last two entries, and in
/// its second entry the link to the next EBR, whose start `links[j + 1]` counts
/// from the start of the container, or nothing for the last EBR.
pub open spec fn ebr_chain_laid_out(
    source: Seq<u8>,
    sector_size: int,
    base: int,
    count: int,
    links: Seq<int>,
) -> bool {
    &&& 0 < links.len() <= mbr::MAX_EBR_CHAIN_LENGTH
    &&& links[0] == 0
    &&& 0 <= base
    &&& 0 < count
    &&& (base + count) * sector_size <= source.len() <= u64::MAX
    &&& forall|i: int, j: int| 0 <= i < j < links.len() ==> links[i] != links[j]
    &&& forall|j: int|
        0 <= j < links.len() ==> {
            let sector = #[trigger] ebr_sector(source, sector_size, base, links[j]);
            let first = mbr::spec_entry(sector, 0);
            let second = mbr::spec_entry(sector, 1);
            &&& 0 <= links[j] < count
            &&& mbr::has_mbr_signature(sector)
            &&& mbr::is_empty_entry(mbr::spec_entry(sector, 2))
            &&& mbr::is_empty_entry(mbr::spec_entry(sector, 3))
            &&& first.0 != 0 && !mbr::is_extended(first.0) && first.0 != mbr::PROTECTIVE_GPT_TYPE
            &&& first.2 > 0
            &&& links[j] + first.1 + first.2 <= count
            &&& if j + 1 < links.len() {
                mbr::is_extended(second.0) && second.1 == links[j + 1] && second.2 > 0
            } else {
                mbr::is_empty_entry(second)
            }
        }
}

/// The logical partitions of such a chain, one for each EBR in chain order,
/// numbered from 5, each where its EBR's first entry puts it.
pub open spec fn chain_logicals(source: Seq<u8>, sector_size: int, base: int, links: Seq<int>) -> Seq<
    PartitionView,
> {
    Seq::new(
        links.len(),
        |j: int|
            {
                let first = mbr::spec_entry(ebr_sector(source, sector_size, base, links[j]), 0);
                PartitionView {
                    number: (5 + j) as u32,
                    byte_offset: ((base + links[j] + first.1) * sector_size) as u64,
                    byte_length: (first.2 * sector_size) as u64,
                    type_identifier: TypeView::Mbr(first.0),
                    unique_identifier: None,
                }
            },
    )
}

proof fn lemma_walk_laid_out(
    source: Seq<u8>,
    sector_size: int,
    base: int,
    count: int,
    links: Seq<int>,
    i: nat,
)
    requires
        0 < sector_size,
        ebr_chain_laid_out(source, sector_size, base, count, links),
        i < links.len(),
    ensures
        mbr::spec_ebr_walk(
            source,
            sector_size,
            base,
            base + count,
            base + links[i as int],
            Seq::new(i, |j: int| (base + links[j]) as u64),
            i,
            chain_logicals(source, sector_size, base, links).take(i as int),
        ) == Some(chain_logicals(source, sector_size, base, links)),
    decreases links.len() - i,
{
    let all = chain_logicals(source, sector_size, base, links);
    let current = base + links[i as int];
    let visited = Seq::new(i, |j: int| (base + links[j]) as u64);
    let found = all.take(i as int);
    let sector = ebr_sector(source, sector_size, base, links[i as int]);
    let first = mbr::spec_entry(sector, 0);
    let second = mbr::spec_entry(sector, 1);
    let logical = current + first.1;
    let len = source.len() as int;
    assert(0 <= links[i as int] < count);
    assert((current + 1) * sector_size <= (base + count) * sector_size) by (nonlinear_arith)
        requires
            current + 1 <= base + count,
            0 < sector_size,
    ;
    assert(current * sector_size + sector_size == (current + 1) * sector_size) by (nonlinear_arith);
    assert(current <= u64::MAX) by (nonlinear_arith)
        requires
            (current + 1) * sector_size <= u64::MAX,
            0 < sector_size,
            0 <= current,
    ;
    assert(logical * sector_size + first.2 * sector_size <= len) by (nonlinear_arith)
        requires
            logical + first.2 <= base + count,
            (base + count) * sector_size <= len,
            0 < sector_size,
            0 <= logical,
            0 <= first.2,
    ;
    assert(!visited.contains(current as u64)) by {
        if visited.contains(current as u64) {
            let j = choose|j: int| 0 <= j < visited.len() && visited[j] == current as u64;
            let other = ebr_sector(source, sector_size, base, links[j]);
            assert(0 <= links[j] < count);
            assert((base + links[j] + 1) * sector_size <= (base + count) * sector_size) by (nonlinear_arith)
                requires
                    base + links[j] + 1 <= base + count,
                    0 < sector_size,
            ;
            assert(base + links[j] <= u64::MAX) by (nonlinear_arith)
                requires
                    (base + links[j] + 1) * sector_size <= u64::MAX,
                    0 < sector_size,
                    0 <= base + links[j],
            ;
            assert(links[j] == links[i as int]);
        }
    }
    let range = mbr::spec_byte_range(len, sector_size, logical, first.2 as int);
    assert(range == Some(((logical * sector_size) as u64, (first.2 * sector_size) as u64)));
    let pushed = found.push(
        PartitionView {
            number: (5 + found.len()) as u32,
            byte_offset: range.unwrap().0,
            byte_length: range.unwrap().1,
            type_identifier: TypeView::Mbr(first.0),
            unique_identifier: None,
        },
    );
    assert(pushed =~= all.take(i + 1int));
    if i + 1 < links.len() {
        assert(second.1 == links[i + 1int]);
        let next_visited = visited.push(current as u64);
        assert(next_visited =~= Seq::new((i + 1) as nat, |j: int| (base + links[j]) as u64));
        lemma_walk_laid_out(source, sector_size, base, count, links, (i + 1) as nat);
        assert(base + second.1 == base + links[i + 1int]);
    } else {
        assert(pushed =~= all);
    }
}

/// Every EBR after the first is found at the start of the extended container
/// plus the start recorded in the previous EBR's link, not relative to the EBR
/// that holds the link: a chain laid out that way, with `k` EBRs, yields exactly
/// its `k` logical partitions, numbered 5 to `4 + k` in chain order.
pub proof fn lemma_ebr_chain_follows_links_from_container_start(
    source: Seq<u8>,
    sector_size: int,
    base: int,
    count: int,
    links: Seq<int>,
)
    requires
        0 < sector_size,
        ebr_chain_laid_out(source, sector_size, base, count, links),
    ensures
        mbr::spec_ebr_chain(source, sector_size, base, count) == Some(
            chain_logicals(source, sector_size, base, links),
        ),
{
    lemma_walk_laid_out(source, sector_size, base, count, links, 0);
    assert(Seq::new(0, |j: int| (base + links[j]) as u64) =~= Seq::<u64>::empty());
    assert(chain_logicals(source, sector_size, base, links).take(0) =~= Seq::<PartitionView>::empty());
    assert(base * sector_size + count * sector_size == (base + count) * sector_size) by (nonlinear_arith);
}

/// Classifies a source as a direct image, a validated MBR layout or a validated
/// GPT layout, reading only its first two sectors and the table metadata.
/// Every partition it returns is a non-empty byte range inside the source, and
/// the partition numbers increase along the list.
pub fn discover_layout<R: BlockReader + ?Sized>(reader: &R, geometry: BlockGeometry) -> (r: Result<
    SourceLayout,
    Error,
>)
    ensures
        r matches Ok(l) ==> spec_discover(reader.bytes(), geometry.sector_size() as int) == Some(l@),
        reader.reliable() ==> (r is Ok <==> spec_discover(
            reader.bytes(),
            geometry.sector_size() as int,
        ) is Some),
        reader.reliable() ==> (r matches Err(e) ==> e.kind() == ErrorCategory::PartitionTable),
        r matches Ok(SourceLayout::Mbr { partitions }) ==> within(
            views(partitions@),
            reader.bytes().len() as int,
        ),
        r matches Ok(SourceLayout::Gpt { partitions }) ==> within(
            views(partitions@),
            reader.bytes().len() as int,
        ),
        r matches Ok(SourceLayout::Mbr { partitions }) ==> numbers_increase(views(partitions@)),
        r matches Ok(SourceLayout::Gpt { partitions }) ==> numbers_increase(views(partitions@)),
{
    let sector_size = geometry.logical_sector_size();
    let r = read_layout(reader, geometry);
    proof {
        if r is Ok {
            lemma_discovered_partitions_lie_inside(reader.bytes(), geometry.sector_size() as int);
            lemma_discovered_partition_numbers_increase(
                reader.bytes(),
                geometry.sector_size() as int,
            );
        }
    }
    r
}

fn table_error(message: &str) -> (e: Error)
    ensures
        e.kind() == ErrorCategory::PartitionTable,
{
    Error::new(ErrorCategory::PartitionTable, message)
}

fn read_layout<R: BlockReader + ?Sized>(reader: &R, geometry: BlockGeometry) -> (r: Result<
    SourceLayout,
    Error,
>)
    ensures
        r matches Ok(l) ==> spec_discover(reader.bytes(), geometry.sector_size() as int) == Some(l@),
        reader.reliable() ==> (r is Ok <==> spec_discover(
            reader.bytes(),
            geometry.sector_size() as int,
        ) is Some),
        reader.reliable() ==> (r matches Err(e) ==> e.kind() == ErrorCategory::PartitionTable),
        r is Ok ==> reader.bytes().len() <= u64::MAX,
{
    let source_len = reader.len()?;
    if source_len < MIN_TABLE_SOURCE_LEN {
        return Ok(SourceLayout::DirectImage);
    }
    let sector_size = geometry.logical_sector_size();
    let ss = sector_size as u64;
    let zero_len: usize = if source_len < ss {
        source_len as usize
    } else {
        sector_size as usize
    };
    let mut sector_zero: Vec<u8> = vec![0u8; zero_len];
    reader.read_exact_at(0, sector_zero.as_mut_slice())?;
    let has_mbr = mbr::mbr_signature(sector_zero.as_slice());
    let mut has_gpt = false;
    let mut sector_one: Vec<u8> = Vec::new();
    if source_len >= ss * 2 {
        sector_one = vec![0u8; sector_size as usize];
        reader.read_exact_at(ss, sector_one.as_mut_slice())?;
        has_gpt = gpt::gpt_signature(sector_one.as_slice());
    }
    if has_gpt {
        let partitions = gpt::parse(reader, geometry, sector_one.as_slice())?;
        Ok(SourceLayout::Gpt { partitions })
    } else if has_mbr {
        let partitions = mbr::parse(reader, geometry, sector_zero.as_slice())?;
        if partitions.len() == 0 {
            return Err(table_error("MBR lists no partitions"));
        }
        Ok(SourceLayout::Mbr { partitions })
    } else {
        Ok(SourceLayout::DirectImage)
    }
}

} // verus!
