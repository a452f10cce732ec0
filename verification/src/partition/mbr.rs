use vstd::prelude::*;

use super::{views, Partition, PartitionType, PartitionView, TypeView};
use crate::block::{supported_sector_size, BlockGeometry, BlockReader};
use crate::bytes::{le_u32, read_u32_le};
use crate::error::{Error, ErrorCategory};

verus! {

/// Byte offset of the partition table in an MBR or EBR sector.
pub const PARTITION_TABLE_OFFSET: usize = 446;

/// Size of one partition table entry.
pub const PARTITION_ENTRY_SIZE: usize = 16;

/// Number of primary entries.
pub const PRIMARY_ENTRY_COUNT: usize = 4;

/// Partition type of a protective MBR entry that announces a GPT.
pub const PROTECTIVE_GPT_TYPE: u8 = 0xEE;

/// Longest EBR chain followed.
pub const MAX_EBR_CHAIN_LENGTH: usize = 128;

/// Whether `kind` marks an extended partition container.
pub open spec fn is_extended(kind: u8) -> bool {
    kind == 0x05 || kind == 0x0F || kind == 0x85
}

fn extended_type(kind: u8) -> (r: bool)
    ensures
        r == is_extended(kind),
{
    kind == 0x05 || kind == 0x0F || kind == 0x85
}

/// Whether `sector` ends its first 512 bytes with the `0x55 0xAA` signature.
pub open spec fn has_mbr_signature(sector: Seq<u8>) -> bool {
    sector.len() >= 512 && sector[510] == 0x55 && sector[511] == 0xAA
}

/// Tests for the `0x55 0xAA` signature.
pub fn mbr_signature(sector: &[u8]) -> (r: bool)
    ensures
        r == has_mbr_signature(sector@),
{
    sector.len() >= 512 && sector[510] == 0x55 && sector[511] == 0xAA
}

/// Entry `slot` of the partition table in `sector`: type, start LBA and sector count.
pub open spec fn spec_entry(sector: Seq<u8>, slot: int) -> (u8, u64, u64) {
    let at = PARTITION_TABLE_OFFSET + slot * PARTITION_ENTRY_SIZE;
    (sector[at + 4], le_u32(sector, at + 8) as u64, le_u32(sector, at + 12) as u64)
}

/// Whether a table entry is all zero.
pub open spec fn is_empty_entry(entry: (u8, u64, u64)) -> bool {
    entry.0 == 0 && entry.1 == 0 && entry.2 == 0
}

/// The byte range of `count` sectors starting at `start`, or `None` where it is
/// empty or does not lie inside a source of `source_len` bytes.
pub open spec fn spec_byte_range(source_len: int, sector_size: int, start: int, count: int) -> Option<
    (u64, u64),
> {
    if count == 0 || start * sector_size + count * sector_size > source_len {
        None
    } else {
        Some(((start * sector_size) as u64, (count * sector_size) as u64))
    }
}

/// The state after reading the first `n` primary entries: the partitions found and
/// the extended container, or `None` where an entry is invalid.
pub open spec fn spec_primary(source_len: int, sector_size: int, sector: Seq<u8>, n: nat) -> Option<
    (Seq<PartitionView>, Option<(u64, u64)>),
>
    decreases n,
{
    if n == 0 {
        Some((Seq::empty(), None))
    } else {
        match spec_primary(source_len, sector_size, sector, (n - 1) as nat) {
            None => None,
            Some((found, extended)) => {
                let (kind, start, count) = spec_entry(sector, n - 1);
                if kind == 0 {
                    if start != 0 || count != 0 {
                        None
                    } else {
                        Some((found, extended))
                    }
                } else if kind == PROTECTIVE_GPT_TYPE {
                    None
                } else if is_extended(kind) {
                    if extended is Some {
                        None
                    } else {
                        Some((found, Some((start, count))))
                    }
                } else {
                    match spec_byte_range(source_len, sector_size, start as int, count as int) {
                        None => None,
                        Some((offset, length)) => Some(
                            (
                                found.push(
                                    PartitionView {
                                        number: n as u32,
                                        byte_offset: offset,
                                        byte_length: length,
                                        type_identifier: TypeView::Mbr(kind),
                                        unique_identifier: None,
                                    },
                                ),
                                extended,
                            ),
                        ),
                    }
                }
            },
        }
    }
}

/// The logical partitions found by following the EBR chain from `current`, given
/// the EBRs already `visited` and the logical partitions `found` so far, or `None`
/// where the chain is invalid.
pub open spec fn spec_ebr_walk(
    source: Seq<u8>,
    sector_size: int,
    base: int,
    end: int,
    current: int,
    visited: Seq<u64>,
    index: nat,
    found: Seq<PartitionView>,
) -> Option<Seq<PartitionView>>
    decreases MAX_EBR_CHAIN_LENGTH - index,
{
    let sector = source.subrange(current * sector_size, current * sector_size + sector_size);
    let first = spec_entry(sector, 0);
    let second = spec_entry(sector, 1);
    let logical = current + first.1;
    let logical_end = logical + first.2;
    let range = spec_byte_range(source.len() as int, sector_size, logical, first.2 as int);
    if index >= MAX_EBR_CHAIN_LENGTH || visited.contains(current as u64) || current < base || current
        >= end {
        None
    } else if current * sector_size + sector_size > source.len() || !has_mbr_signature(sector) {
        None
    } else if !is_empty_entry(spec_entry(sector, 2)) || !is_empty_entry(spec_entry(sector, 3)) {
        None
    } else if !is_empty_entry(first) && (is_extended(first.0) || first.0 == PROTECTIVE_GPT_TYPE
        || first.2 == 0 || logical < base || logical_end > end || range is None) {
        None
    } else if is_empty_entry(first) && !is_empty_entry(second) {
        None
    } else {
        let found = if is_empty_entry(first) {
            found
        } else {
            found.push(
                PartitionView {
                    number: (5 + found.len()) as u32,
                    byte_offset: range.unwrap().0,
                    byte_length: range.unwrap().1,
                    type_identifier: TypeView::Mbr(first.0),
                    unique_identifier: None,
                },
            )
        };
        if is_empty_entry(second) {
            Some(found)
        } else if !is_extended(second.0) || second.2 == 0 || index + 1 == MAX_EBR_CHAIN_LENGTH {
            None
        } else {
            spec_ebr_walk(
                source,
                sector_size,
                base,
                end,
                base + second.1,
                visited.push(current as u64),
                index + 1,
                found,
            )
        }
    }
}

/// The logical partitions of the extended container of `count` sectors at `base`.
pub open spec fn spec_ebr_chain(source: Seq<u8>, sector_size: int, base: int, count: int) -> Option<
    Seq<PartitionView>,
> {
    if count == 0 || spec_byte_range(source.len() as int, sector_size, base, count) is None {
        None
    } else {
        spec_ebr_walk(source, sector_size, base, base + count, base, Seq::empty(), 0, Seq::empty())
    }
}

/// The partitions of a source whose LBA 0 is `sector_zero`: primary partitions in
/// slot order, then logical partitions in chain order; `None` where the table is
/// not valid.
pub open spec fn spec_parse(source: Seq<u8>, sector_size: int, sector_zero: Seq<u8>) -> Option<
    Seq<PartitionView>,
> {
    if !has_mbr_signature(sector_zero) {
        None
    } else {
        match spec_primary(source.len() as int, sector_size, sector_zero, 4) {
            None => None,
            Some((primary, None)) => Some(primary),
            Some((primary, Some((base, count)))) => match spec_ebr_chain(
                source,
                sector_size,
                base as int,
                count as int,
            ) {
                None => None,
                Some(logical) => Some(primary + logical),
            },
        }
    }
}

/// Once a primary entry is invalid, every longer scan is invalid too.
proof fn lemma_primary_invalid_persists(
    source_len: int,
    sector_size: int,
    sector: Seq<u8>,
    n: nat,
    m: nat,
)
    requires
        n <= m,
        spec_primary(source_len, sector_size, sector, n) is None,
    ensures
        spec_primary(source_len, sector_size, sector, m) is None,
    decreases m - n,
{
    if m > n {
        lemma_primary_invalid_persists(source_len, sector_size, sector, n, (m - 1) as nat);
    }
}

fn table_error(message: &str) -> (e: Error)
    ensures
        e.kind() == ErrorCategory::PartitionTable,
{
    Error::new(ErrorCategory::PartitionTable, message)
}

fn read_entry(sector: &[u8], slot: usize) -> (r: (u8, u64, u64))
    requires
        slot < PRIMARY_ENTRY_COUNT,
        sector@.len() >= 512,
    ensures
        r == spec_entry(sector@, slot as int),
{
    let at = PARTITION_TABLE_OFFSET + slot * PARTITION_ENTRY_SIZE;
    (sector[at + 4], read_u32_le(sector, at + 8) as u64, read_u32_le(sector, at + 12) as u64)
}

fn empty(entry: (u8, u64, u64)) -> (r: bool)
    ensures
        r == is_empty_entry(entry),
{
    entry.0 == 0 && entry.1 == 0 && entry.2 == 0
}

fn byte_range<R: BlockReader + ?Sized>(
    reader: &R,
    geometry: BlockGeometry,
    start: u64,
    count: u64,
) -> (r: Result<(u64, u64), Error>)
    ensures
        r matches Ok(range) ==> spec_byte_range(
            reader.bytes().len() as int,
            geometry.sector_size() as int,
            start as int,
            count as int,
        ) == Some(range),
        reader.reliable() ==> spec_byte_range(
            reader.bytes().len() as int,
            geometry.sector_size() as int,
            start as int,
            count as int,
        ) is Some ==> r is Ok,
        r matches Err(e) ==> e.kind() == ErrorCategory::PartitionTable,
{
    let source_len = match reader.len() {
        Ok(n) => n,
        Err(_) => return Err(table_error("cannot read source length")),
    };
    if count == 0 {
        return Err(table_error("partition has zero sectors"));
    }
    let size = geometry.logical_sector_size() as u64;
    let offset = match start.checked_mul(size) {
        Some(v) => v,
        None => return Err(table_error("partition offset overflow")),
    };
    let length = match count.checked_mul(size) {
        Some(v) => v,
        None => return Err(table_error("partition length overflow")),
    };
    let end = match offset.checked_add(length) {
        Some(v) => v,
        None => return Err(table_error("partition range overflow")),
    };
    if end > source_len {
        return Err(table_error("partition extends beyond source"));
    }
    Ok((offset, length))
}

fn read_sector<R: BlockReader + ?Sized>(reader: &R, geometry: BlockGeometry, lba: u64) -> (r: Result<
    Vec<u8>,
    Error,
>)
    ensures
        r matches Ok(v) ==> lba * geometry.sector_size() + geometry.sector_size()
            <= reader.bytes().len() && v@ == reader.bytes().subrange(
            lba * geometry.sector_size(),
            lba * geometry.sector_size() + geometry.sector_size(),
        ),
        reader.reliable() && lba * geometry.sector_size() + geometry.sector_size()
            <= reader.bytes().len() ==> r is Ok,
        r matches Err(e) ==> e.kind() == ErrorCategory::PartitionTable,
{
    let source_len = match reader.len() {
        Ok(n) => n,
        Err(_) => return Err(table_error("cannot read source length")),
    };
    let sector_size = geometry.logical_sector_size();
    let size = sector_size as usize;
    let offset = match lba.checked_mul(sector_size as u64) {
        Some(v) => v,
        None => return Err(table_error("sector offset overflow")),
    };
    let mut sector: Vec<u8> = vec![0u8; size];
    match reader.read_exact_at(offset, sector.as_mut_slice()) {
        Ok(()) => Ok(sector),
        Err(_) => Err(table_error("cannot read partition sector")),
    }
}


fn contains_offset(visited: &Vec<u64>, value: u64) -> (r: bool)
    ensures
        r == visited@.contains(value),
{
    let mut i: usize = 0;
    while i < visited.len()
        invariant
            i <= visited@.len(),
            forall|j: int| 0 <= j < i ==> visited@[j] != value,
        decreases visited@.len() - i,
    {
        if visited[i] == value {
            return true;
        }
        i = i + 1;
    }
    false
}

/// Follows the EBR chain of the extended container of `count` sectors at `base`
/// and returns its logical partitions, numbered from 5.
fn parse_ebr_chain<R: BlockReader + ?Sized>(
    reader: &R,
    geometry: BlockGeometry,
    base: u64,
    count: u64,
) -> (r: Result<Vec<Partition>, Error>)
    requires
        base <= u32::MAX,
        count <= u32::MAX,
    ensures
        r matches Ok(ps) ==> spec_ebr_chain(
            reader.bytes(),
            geometry.sector_size() as int,
            base as int,
            count as int,
        ) == Some(views(ps@)),
        reader.reliable() ==> (r is Ok <==> spec_ebr_chain(
            reader.bytes(),
            geometry.sector_size() as int,
            base as int,
            count as int,
        ) is Some),
        r matches Err(e) ==> e.kind() == ErrorCategory::PartitionTable,
{
    let end = base + count;
    if count == 0 {
        return Err(table_error("empty extended MBR container"));
    }
    let _ = byte_range(reader, geometry, base, count)?;
    let ghost source = reader.bytes();
    let ghost sz = geometry.sector_size() as int;
    let ghost target = spec_ebr_chain(source, sz, base as int, count as int);
    let mut current = base;
    let mut visited: Vec<u64> = Vec::new();
    let mut result: Vec<Partition> = Vec::new();
    let mut index: usize = 0;
    assert(views(result@) =~= Seq::<PartitionView>::empty());
    loop
        invariant
            index < MAX_EBR_CHAIN_LENGTH,
            result@.len() <= index,
            base <= u32::MAX,
            end == base + count,
            count <= u32::MAX,
            current <= base + u32::MAX,
            source == reader.bytes(),
            sz == geometry.sector_size(),
            target == spec_ebr_chain(source, sz, base as int, count as int),
            target == spec_ebr_walk(source, sz, base as int, end as int, current as int, visited@, index as nat, views(result@)),
        decreases MAX_EBR_CHAIN_LENGTH - index,
    {
        let ghost prior = result@;
        if contains_offset(&visited, current) {
            return Err(table_error("repeated EBR offset"));
        }
        if current < base || current >= end {
            return Err(table_error("EBR lies outside extended container"));
        }
        let sector = read_sector(reader, geometry, current)?;
        let ghost s = sector@;
        if !mbr_signature(sector.as_slice()) {
            return Err(table_error("EBR signature is invalid"));
        }
        let first = read_entry(sector.as_slice(), 0);
        let second = read_entry(sector.as_slice(), 1);
        let third = read_entry(sector.as_slice(), 2);
        let fourth = read_entry(sector.as_slice(), 3);
        if !empty(third) || !empty(fourth) {
            return Err(table_error("unexpected extra EBR entries"));
        }
        if !empty(first) {
            if extended_type(first.0) || first.0 == PROTECTIVE_GPT_TYPE || first.2 == 0 {
                return Err(table_error("invalid logical partition"));
            }
            let logical = current + first.1;
            let logical_end = logical + first.2;
            if logical < base || logical_end > end {
                return Err(table_error("logical partition escapes extended container"));
            }
            let (offset, length) = byte_range(reader, geometry, logical, first.2)?;
            let number = 5 + result.len() as u32;
            let partition = Partition {
                number,
                byte_offset: offset,
                byte_length: length,
                type_identifier: PartitionType::Mbr(first.0),
                unique_identifier: None,
            };
            result.push(partition);
            assert(views(result@) =~= views(prior).push(partition@));
        }
        if empty(first) && !empty(second) {
            return Err(table_error("EBR link has no logical partition"));
        }
        if empty(second) {
            return Ok(result);
        }
        if !extended_type(second.0) || second.2 == 0 {
            return Err(table_error("invalid EBR next link"));
        }
        let next = base + second.1;
        if index + 1 == MAX_EBR_CHAIN_LENGTH {
            return Err(table_error("EBR chain exceeds limit"));
        }
        visited.push(current);
        current = next;
        index = index + 1;
    }
}

/// Validates the MBR in `sector_zero` and returns its primary partitions in slot
/// order followed by the logical partitions of its extended container.
pub fn parse<R: BlockReader + ?Sized>(
    reader: &R,
    geometry: BlockGeometry,
    sector_zero: &[u8],
) -> (r: Result<Vec<Partition>, Error>)
    ensures
        r matches Ok(ps) ==> spec_parse(reader.bytes(), geometry.sector_size() as int, sector_zero@)
            == Some(views(ps@)),
        reader.reliable() ==> (r is Ok <==> spec_parse(
            reader.bytes(),
            geometry.sector_size() as int,
            sector_zero@,
        ) is Some),
        r matches Err(e) ==> e.kind() == ErrorCategory::PartitionTable,
{
    if !mbr_signature(sector_zero) {
        return Err(table_error("invalid MBR sector"));
    }
    let ghost source = reader.bytes();
    let ghost sz = geometry.sector_size() as int;
    let mut partitions: Vec<Partition> = Vec::new();
    let mut extended: Option<(u64, u64)> = None;
    let mut slot: usize = 0;
    while slot < PRIMARY_ENTRY_COUNT
        invariant
            slot <= PRIMARY_ENTRY_COUNT,
            sector_zero@.len() >= 512,
            source == reader.bytes(),
            sz == geometry.sector_size(),
            spec_primary(source.len() as int, sz, sector_zero@, slot as nat) == Some(
                (views(partitions@), extended),
            ),
            extended matches Some(e) ==> e.0 <= u32::MAX && e.1 <= u32::MAX,
        decreases PRIMARY_ENTRY_COUNT - slot,
    {
        let ghost prior = partitions@;
        let (kind, start, count) = read_entry(sector_zero, slot);
        let ghost next = spec_primary(source.len() as int, sz, sector_zero@, (slot + 1) as nat);
        proof {
            if next is None {
                lemma_primary_invalid_persists(source.len() as int, sz, sector_zero@, (slot + 1) as nat, 4);
            }
        }
        if kind == 0 {
            if start != 0 || count != 0 {
                return Err(table_error("empty MBR entry has a nonempty range"));
            }
        } else if kind == PROTECTIVE_GPT_TYPE {
            return Err(table_error("protective MBR requires GPT validation"));
        } else if extended_type(kind) {
            if extended.is_some() {
                return Err(table_error("multiple extended MBR containers"));
            }
            extended = Some((start, count));
        } else {
            let (offset, length) = byte_range(reader, geometry, start, count)?;
            let partition = Partition {
                number: (slot + 1) as u32,
                byte_offset: offset,
                byte_length: length,
                type_identifier: PartitionType::Mbr(kind),
                unique_identifier: None,
            };
            partitions.push(partition);
            assert(views(partitions@) =~= views(prior).push(partition@));
        }
        slot = slot + 1;
    }
    match extended {
        None => Ok(partitions),
        Some((base, count)) => {
            let ghost primary = partitions@;
            let mut logical = parse_ebr_chain(reader, geometry, base, count)?;
            let ghost logical_parts = logical@;
            partitions.append(&mut logical);
            assert(views(partitions@) =~= views(primary) + views(logical_parts));
            Ok(partitions)
        },
    }
}

} // verus!
