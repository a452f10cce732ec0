use vstd::prelude::*;

use super::crc32::{crc32_ieee, ieee};
use super::{guid_at, views, Partition, PartitionType, PartitionView, TypeView};
use crate::block::{supported_sector_size, BlockGeometry, BlockReader};
use crate::bytes::{all_zero, is_all_zero, le_u32, le_u64, read_u32_le, read_u64_le};
use crate::error::{Error, ErrorCategory};

verus! {

/// The GPT header revision this parser accepts.
pub const GPT_REVISION_1_0: u32 = 0x0001_0000;

/// The smallest GPT header.
pub const MIN_HEADER_SIZE: u32 = 92;

/// The smallest GPT entry; every entry size is a multiple of it.
pub const MIN_ENTRY_SIZE: u32 = 128;

/// The largest GPT entry accepted.
pub const MAX_ENTRY_SIZE: u32 = 4096;

/// The largest number of GPT entries accepted.
pub const MAX_ENTRY_COUNT: u32 = 16384;

/// The largest GPT entry array read.
pub const MAX_ENTRY_ARRAY_BYTES: u64 = 16777216;

/// Whether `sector` starts with the `EFI PART` signature.
pub open spec fn has_gpt_signature(sector: Seq<u8>) -> bool {
    &&& sector.len() >= 8
    &&& sector[0] == 0x45 && sector[1] == 0x46 && sector[2] == 0x49 && sector[3] == 0x20
    &&& sector[4] == 0x50 && sector[5] == 0x41 && sector[6] == 0x52 && sector[7] == 0x54
}

/// Tests for the `EFI PART` signature.
pub fn gpt_signature(sector: &[u8]) -> (r: bool)
    ensures
        r == has_gpt_signature(sector@),
{
    sector.len() >= 8 && sector[0] == 0x45 && sector[1] == 0x46 && sector[2] == 0x49
        && sector[3] == 0x20 && sector[4] == 0x50 && sector[5] == 0x41 && sector[6] == 0x52
        && sector[7] == 0x54
}

/// The fields of a validated GPT header that locate and check its entry array.
#[derive(Debug, Clone, Copy, PartialEq, Eq, Structural)]
pub struct Header {
    pub first_usable_lba: u64,
    pub last_usable_lba: u64,
    pub entries_lba: u64,
    pub entry_count: u32,
    pub entry_size: u32,
    pub entries_crc32: u32,
}

/// The header bytes over which the header CRC is computed: the first `size`
/// bytes with the stored CRC field cleared.
pub open spec fn header_crc_input(sector: Seq<u8>, size: int) -> Seq<u8> {
    Seq::new(size as nat, |i: int| if 16 <= i < 20 { 0u8 } else { sector[i] })
}

/// The validated header in `sector` for a source of `source_len` bytes, or `None`
/// where the header is not a valid GPT header for that source.
pub open spec fn spec_header(source_len: int, sector_size: int, sector: Seq<u8>) -> Option<Header> {
    let revision = le_u32(sector, 8);
    let header_size = le_u32(sector, 12);
    let stored_crc = le_u32(sector, 16);
    let reserved = le_u32(sector, 20);
    let current_lba = le_u64(sector, 24);
    let backup_lba = le_u64(sector, 32);
    let first_usable = le_u64(sector, 40);
    let last_usable = le_u64(sector, 48);
    let entries_lba = le_u64(sector, 72);
    let entry_count = le_u32(sector, 80);
    let entry_size = le_u32(sector, 84);
    let entries_crc32 = le_u32(sector, 88);
    let source_lbas = source_len / sector_size;
    if source_len == 0 || source_len % sector_size != 0 || sector.len() < sector_size
        || !has_gpt_signature(sector) {
        None
    } else if revision != GPT_REVISION_1_0 || reserved != 0 || header_size < MIN_HEADER_SIZE
        || header_size > sector_size || current_lba != 1 || backup_lba >= source_lbas
        || first_usable > last_usable || last_usable >= source_lbas || entry_size < MIN_ENTRY_SIZE
        || entry_size > MAX_ENTRY_SIZE || entry_size % MIN_ENTRY_SIZE != 0 || entry_count == 0
        || entry_count > MAX_ENTRY_COUNT {
        None
    } else if entry_count * entry_size > MAX_ENTRY_ARRAY_BYTES {
        None
    } else if entries_lba * sector_size + entry_count * entry_size > source_len {
        None
    } else if crc32_ieee(header_crc_input(sector, header_size as int)) != stored_crc {
        None
    } else {
        Some(
            Header {
                first_usable_lba: first_usable,
                last_usable_lba: last_usable,
                entries_lba,
                entry_count,
                entry_size,
                entries_crc32,
            },
        )
    }
}

/// What one entry of the array contributes.
pub enum EntryOutcome {
    /// An unused entry (all-zero type GUID).
    Unused,
    /// A used entry that is not a valid partition.
    Invalid,
    /// A valid partition.
    Used(PartitionView),
}

/// The outcome of entry `index` of `entries`.
pub open spec fn entry_outcome(
    entries: Seq<u8>,
    header: Header,
    sector_size: int,
    source_len: int,
    index: int,
) -> EntryOutcome {
    let start = index * header.entry_size;
    let first_lba = le_u64(entries, start + 32);
    let last_lba = le_u64(entries, start + 40);
    let byte_offset = first_lba * sector_size;
    let byte_length = (last_lba - first_lba + 1) * sector_size;
    if all_zero(entries, start, start + 16) {
        EntryOutcome::Unused
    } else if all_zero(entries, start + 16, start + 32) {
        EntryOutcome::Invalid
    } else if first_lba > last_lba || first_lba < header.first_usable_lba || last_lba
        > header.last_usable_lba {
        EntryOutcome::Invalid
    } else if byte_offset + byte_length > source_len {
        EntryOutcome::Invalid
    } else {
        EntryOutcome::Used(
            PartitionView {
                number: (index + 1) as u32,
                byte_offset: byte_offset as u64,
                byte_length: byte_length as u64,
                type_identifier: TypeView::Gpt(entries.subrange(start, start + 16)),
                unique_identifier: Some(entries.subrange(start + 16, start + 32)),
            },
        )
    }
}

/// The partitions described by the first `count` entries, or `None` where one of
/// them is invalid.
pub open spec fn spec_entries(
    entries: Seq<u8>,
    header: Header,
    sector_size: int,
    source_len: int,
    count: nat,
) -> Option<Seq<PartitionView>>
    decreases count,
{
    if count == 0 {
        Some(Seq::empty())
    } else {
        match spec_entries(entries, header, sector_size, source_len, (count - 1) as nat) {
            None => None,
            Some(found) => match entry_outcome(
                entries,
                header,
                sector_size,
                source_len,
                count - 1,
            ) {
                EntryOutcome::Unused => Some(found),
                EntryOutcome::Invalid => None,
                EntryOutcome::Used(p) => Some(found.push(p)),
            },
        }
    }
}

/// The partitions of a source whose LBA 1 holds `header_sector`, or `None` where
/// the GPT is not valid.
pub open spec fn spec_parse(source: Seq<u8>, sector_size: int, header_sector: Seq<u8>) -> Option<
    Seq<PartitionView>,
> {
    match spec_header(source.len() as int, sector_size, header_sector) {
        None => None,
        Some(h) => {
            let offset = h.entries_lba * sector_size;
            let entries = source.subrange(offset, offset + h.entry_count * h.entry_size);
            if crc32_ieee(entries) != h.entries_crc32 {
                None
            } else {
                spec_entries(entries, h, sector_size, source.len() as int, h.entry_count as nat)
            }
        },
    }
}

/// Once an entry is invalid, every longer prefix of the array is invalid too.
proof fn lemma_invalid_persists(
    entries: Seq<u8>,
    header: Header,
    sector_size: int,
    source_len: int,
    n: nat,
    m: nat,
)
    requires
        n <= m,
        spec_entries(entries, header, sector_size, source_len, n) is None,
    ensures
        spec_entries(entries, header, sector_size, source_len, m) is None,
    decreases m - n,
{
    if m > n {
        lemma_invalid_persists(entries, header, sector_size, source_len, n, (m - 1) as nat);
    }
}

fn table_error(message: &str) -> (e: Error)
    ensures
        e.kind() == ErrorCategory::PartitionTable,
{
    Error::new(ErrorCategory::PartitionTable, message)
}

/// Validates a GPT header read from LBA 1 of a source of `source_len` bytes.
pub fn parse_header(source_len: u64, geometry: BlockGeometry, sector: &[u8]) -> (r: Result<
    Header,
    Error,
>)
    ensures
        r is Ok <==> spec_header(source_len as int, geometry.sector_size() as int, sector@) is Some,
        r matches Ok(h) ==> spec_header(source_len as int, geometry.sector_size() as int, sector@)
            == Some(h),
        r matches Err(e) ==> e.kind() == ErrorCategory::PartitionTable,
{
    let sector_size = geometry.logical_sector_size();
    let ss = sector_size as u64;
    let ghost spec_result = spec_header(source_len as int, ss as int, sector@);
    if source_len == 0 || source_len % ss != 0 || sector.len() < sector_size as usize
        || !gpt_signature(sector) {
        return Err(table_error("invalid GPT header sector"));
    }
    let revision = read_u32_le(sector, 8);
    let header_size = read_u32_le(sector, 12);
    let stored_crc = read_u32_le(sector, 16);
    let reserved = read_u32_le(sector, 20);
    let current_lba = read_u64_le(sector, 24);
    let backup_lba = read_u64_le(sector, 32);
    let first_usable = read_u64_le(sector, 40);
    let last_usable = read_u64_le(sector, 48);
    let entries_lba = read_u64_le(sector, 72);
    let entry_count = read_u32_le(sector, 80);
    let entry_size = read_u32_le(sector, 84);
    let entries_crc32 = read_u32_le(sector, 88);
    let source_lbas = source_len / ss;
    if revision != GPT_REVISION_1_0 || reserved != 0 || header_size < MIN_HEADER_SIZE
        || header_size > sector_size || current_lba != 1 || backup_lba >= source_lbas
        || first_usable > last_usable || last_usable >= source_lbas || entry_size < MIN_ENTRY_SIZE
        || entry_size > MAX_ENTRY_SIZE || entry_size % MIN_ENTRY_SIZE != 0 || entry_count == 0
        || entry_count > MAX_ENTRY_COUNT {
        return Err(table_error("invalid GPT header fields"));
    }
    assert(entry_count * entry_size <= 16384 * 4096) by (nonlinear_arith)
        requires
            entry_count <= 16384,
            entry_size <= 4096,
    ;
    let array_bytes = (entry_count as u64) * (entry_size as u64);
    if array_bytes > MAX_ENTRY_ARRAY_BYTES {
        return Err(table_error("GPT entry array is too large"));
    }
    let array_offset = match entries_lba.checked_mul(ss) {
        Some(v) => v,
        None => return Err(table_error("GPT entry array offset overflow")),
    };
    let array_end = match array_offset.checked_add(array_bytes) {
        Some(v) => v,
        None => return Err(table_error("GPT entry array range overflow")),
    };
    if array_end > source_len {
        return Err(table_error("GPT entry array extends beyond source"));
    }
    let hs = header_size as usize;
    let mut crc_header: Vec<u8> = Vec::new();
    let mut i: usize = 0;
    while i < hs
        invariant
            i <= hs,
            hs <= sector@.len(),
            crc_header@ =~= header_crc_input(sector@, hs as int).take(i as int),
        decreases hs - i,
    {
        if 16 <= i && i < 20 {
            crc_header.push(0u8);
        } else {
            crc_header.push(sector[i]);
        }
        i = i + 1;
    }
    assert(crc_header@ =~= header_crc_input(sector@, hs as int));
    if ieee(crc_header.as_slice()) != stored_crc {
        return Err(table_error("GPT header CRC mismatch"));
    }
    Ok(
        Header {
            first_usable_lba: first_usable,
            last_usable_lba: last_usable,
            entries_lba,
            entry_count,
            entry_size,
            entries_crc32,
        },
    )
}


/// Reads and validates the GPT whose header sector is `header_sector`, returning
/// its used partitions in entry order.
pub fn parse<R: BlockReader + ?Sized>(
    reader: &R,
    geometry: BlockGeometry,
    header_sector: &[u8],
) -> (r: Result<Vec<Partition>, Error>)
    ensures
        r matches Ok(ps) ==> spec_parse(reader.bytes(), geometry.sector_size() as int, header_sector@)
            == Some(views(ps@)),
        reader.reliable() ==> (r is Ok <==> spec_parse(
            reader.bytes(),
            geometry.sector_size() as int,
            header_sector@,
        ) is Some),
        r matches Err(e) ==> e.kind() == ErrorCategory::PartitionTable,
{
    let source_len = match reader.len() {
        Ok(n) => n,
        Err(_) => return Err(table_error("cannot read source length")),
    };
    let header = parse_header(source_len, geometry, header_sector)?;
    let sector_size = geometry.logical_sector_size();
    let ss = sector_size as u64;
    let ghost source = reader.bytes();
    let ghost sz = ss as int;
    assert(header.entry_count * header.entry_size <= 16384 * 4096) by (nonlinear_arith)
        requires
            header.entry_count <= 16384,
            header.entry_size <= 4096,
    ;
    let array_bytes = (header.entry_count as u64) * (header.entry_size as u64);
    let array_offset = header.entries_lba * ss;
    let array_len = array_bytes as usize;
    let mut entries: Vec<u8> = vec![0u8; array_len];
    match reader.read_exact_at(array_offset, entries.as_mut_slice()) {
        Ok(()) => {},
        Err(_) => return Err(table_error("cannot read GPT entry array")),
    }
    let ghost e = entries@;
    assert(e == source.subrange(array_offset as int, array_offset + array_bytes));
    if ieee(entries.as_slice()) != header.entries_crc32 {
        return Err(table_error("GPT entry array CRC mismatch"));
    }
    let entry_size = header.entry_size as usize;
    assert(spec_parse(source, sz, header_sector@) == spec_entries(
        e,
        header,
        sz,
        source_len as int,
        header.entry_count as nat,
    ));
    let mut partitions: Vec<Partition> = Vec::new();
    let mut index: u32 = 0;
    while index < header.entry_count
        invariant
            index <= header.entry_count,
            header.entry_count <= MAX_ENTRY_COUNT,
            MIN_ENTRY_SIZE <= header.entry_size <= MAX_ENTRY_SIZE,
            entry_size == header.entry_size,
            entries@ == e,
            e.len() == header.entry_count * header.entry_size,
            source.len() == source_len,
            ss == sz,
            sz == geometry.sector_size(),
            supported_sector_size(sector_size),
            ss == sector_size,
            header.last_usable_lba < source_len / ss,
            spec_entries(e, header, sz, source_len as int, index as nat) == Some(views(partitions@)),
            source == reader.bytes(),
            spec_parse(source, sz, header_sector@) == spec_entries(
                e,
                header,
                sz,
                source_len as int,
                header.entry_count as nat,
            ),
        decreases header.entry_count - index,
    {
        assert(index * header.entry_size + header.entry_size <= header.entry_count * header.entry_size)
            by (nonlinear_arith)
            requires
                index < header.entry_count,
        ;
        let start = (index as usize) * entry_size;
        let ghost prior = partitions@;
        let ghost outcome = entry_outcome(e, header, sz, source_len as int, index as int);
        if is_all_zero(entries.as_slice(), start, start + 16) {
            assert(outcome is Unused);
        } else {
            if is_all_zero(entries.as_slice(), start + 16, start + 32) {
                assert(outcome is Invalid);
                assert(spec_entries(e, header, sz, source_len as int, (index + 1) as nat) is None);
                proof {
                    lemma_invalid_persists(e, header, sz, source_len as int, (index + 1) as nat, header.entry_count as nat);
                }
                return Err(table_error("nonempty GPT entry has zero unique GUID"));
            }
            assert(outcome is Invalid || outcome is Used);
            let first_lba = read_u64_le(entries.as_slice(), start + 32);
            let last_lba = read_u64_le(entries.as_slice(), start + 40);
            if first_lba > last_lba || first_lba < header.first_usable_lba || last_lba
                > header.last_usable_lba {
                proof {
                    lemma_invalid_persists(e, header, sz, source_len as int, (index + 1) as nat, header.entry_count as nat);
                }
                return Err(table_error("GPT partition is outside usable range"));
            }
            assert(last_lba * ss < source_len) by (nonlinear_arith)
                requires
                    last_lba < source_len / ss,
                    ss > 0,
            ;
            assert(first_lba * ss <= last_lba * ss) by (nonlinear_arith)
                requires
                    first_lba <= last_lba,
            ;
            assert((last_lba - first_lba + 1) * ss == last_lba * ss - first_lba * ss + ss)
                by (nonlinear_arith);
            assert((last_lba + 1) * ss <= source_len) by (nonlinear_arith)
                requires
                    last_lba < source_len / ss,
                    ss > 0,
            ;
            assert((last_lba + 1) * ss == last_lba * ss + ss) by (nonlinear_arith);
            let sector_count = last_lba - first_lba + 1;
            let byte_offset = first_lba * ss;
            assert(sector_count * ss == (last_lba - first_lba + 1) * ss);
            let byte_length = sector_count * ss;
            if byte_offset + byte_length > source_len {
                proof {
                    lemma_invalid_persists(e, header, sz, source_len as int, (index + 1) as nat, header.entry_count as nat);
                }
                return Err(table_error("GPT partition extends beyond source"));
            }
            let type_guid = guid_at(entries.as_slice(), start);
            let unique_guid = guid_at(entries.as_slice(), start + 16);
            let partition = Partition {
                number: index + 1,
                byte_offset,
                byte_length,
                type_identifier: PartitionType::Gpt(type_guid),
                unique_identifier: Some(unique_guid),
            };
            assert(outcome == EntryOutcome::Used(partition@));
            partitions.push(partition);
            assert(views(partitions@) =~= views(prior).push(partition@));
        }
        index = index + 1;
    }
    Ok(partitions)
}

} // verus!
