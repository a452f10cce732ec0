use linuxfs::block::{BlockGeometry, MemoryReader};
use linuxfs::error::ErrorCategory;
use linuxfs::partition::crc32::ieee;
use linuxfs::partition::gpt::parse_header;
use linuxfs::partition::{discover_layout, Partition, PartitionType, SourceLayout};

const GPT_SIGNATURE: &[u8; 8] = b"EFI PART";
const GPT_REVISION_1_0: u32 = 0x0001_0000;
const PARTITION_TABLE_OFFSET: usize = 446;
const PARTITION_ENTRY_SIZE: usize = 16;
const PROTECTIVE_GPT_TYPE: u8 = 0xEE;
const MBR_SIGNATURE: [u8; 2] = [0x55, 0xAA];

fn discover(bytes: Vec<u8>) -> linuxfs::error::Result<SourceLayout> {
    discover_layout(&MemoryReader::new(bytes), BlockGeometry::raw_image_512())
}

#[test]
fn source_without_partition_signatures_is_direct_image() {
    let layout = discover(vec![0; 4096]).expect("unsigned source is a direct image");
    assert!(matches!(layout, SourceLayout::DirectImage));
}

#[test]
fn short_source_is_direct_image_without_out_of_range_read() {
    let layout = discover(vec![0; 100]).expect("short source is a direct image");
    assert!(matches!(layout, SourceLayout::DirectImage));
}

#[test]
fn partition_signature_fails_closed_until_validated() {
    let mut bytes = vec![0; 4096];
    bytes[510..512].copy_from_slice(&[0x55, 0xAA]);
    let error = discover(bytes).expect_err("unvalidated table is rejected");
    assert_eq!(error.category(), ErrorCategory::PartitionTable);
}

#[test]
fn gpt_signature_fails_closed_until_validated() {
    let mut bytes = vec![0; 4096];
    bytes[512..520].copy_from_slice(GPT_SIGNATURE);
    let error = discover(bytes).expect_err("unvalidated GPT is rejected");
    assert_eq!(error.category(), ErrorCategory::PartitionTable);
}

#[test]
fn matches_ieee_known_vectors() {
    assert_eq!(ieee(b""), 0x0000_0000);
    assert_eq!(ieee(b"123456789"), 0xCBF4_3926);
}

fn header_fixture() -> Vec<u8> {
    let mut sector = vec![0; 512];
    sector[..8].copy_from_slice(GPT_SIGNATURE);
    sector[8..12].copy_from_slice(&GPT_REVISION_1_0.to_le_bytes());
    sector[12..16].copy_from_slice(&92u32.to_le_bytes());
    sector[24..32].copy_from_slice(&1u64.to_le_bytes());
    sector[32..40].copy_from_slice(&127u64.to_le_bytes());
    sector[40..48].copy_from_slice(&34u64.to_le_bytes());
    sector[48..56].copy_from_slice(&126u64.to_le_bytes());
    sector[72..80].copy_from_slice(&2u64.to_le_bytes());
    sector[80..84].copy_from_slice(&1u32.to_le_bytes());
    sector[84..88].copy_from_slice(&128u32.to_le_bytes());
    sector[88..92].copy_from_slice(&ieee(&[0; 128]).to_le_bytes());
    let crc = ieee(&sector[..92]);
    sector[16..20].copy_from_slice(&crc.to_le_bytes());
    sector
}

fn one_partition_image() -> Vec<u8> {
    let mut bytes = vec![0; 128 * 512];
    let mut entries = vec![0; 128];
    for (index, byte) in entries[..16].iter_mut().enumerate() {
        *byte = (index + 1) as u8;
    }
    for (index, byte) in entries[16..32].iter_mut().enumerate() {
        *byte = (index + 17) as u8;
    }
    entries[32..40].copy_from_slice(&40u64.to_le_bytes());
    entries[40..48].copy_from_slice(&41u64.to_le_bytes());
    bytes[2 * 512..2 * 512 + 128].copy_from_slice(&entries);
    let mut header = header_fixture();
    header[88..92].copy_from_slice(&ieee(&entries).to_le_bytes());
    header[16..20].fill(0);
    let header_crc = ieee(&header[..92]);
    header[16..20].copy_from_slice(&header_crc.to_le_bytes());
    bytes[512..1024].copy_from_slice(&header);
    bytes
}

#[test]
fn discovers_valid_gpt_partition() {
    let layout = discover(one_partition_image()).expect("valid GPT parses");
    let SourceLayout::Gpt { partitions } = layout else {
        panic!("expected GPT layout")
    };
    assert_eq!(partitions.len(), 1);
    assert_eq!(partitions[0].number, 1);
    assert_eq!(partitions[0].byte_offset, 40 * 512);
    assert_eq!(partitions[0].byte_length, 2 * 512);
    assert!(matches!(partitions[0].type_identifier, PartitionType::Gpt(_)));
    assert!(partitions[0].unique_identifier.is_some());
}

#[test]
fn accepts_valid_header() {
    let sector = header_fixture();
    assert!(parse_header(128 * 512, BlockGeometry::raw_image_512(), &sector).is_ok());
}

#[test]
fn rejects_header_crc_corruption() {
    let mut sector = header_fixture();
    sector[40] ^= 1;
    assert_eq!(
        parse_header(128 * 512, BlockGeometry::raw_image_512(), &sector)
            .expect_err("CRC")
            .category(),
        ErrorCategory::PartitionTable
    );
}

#[test]
fn rejects_invalid_header_limits() {
    let mut sector = header_fixture();
    sector[12..16].copy_from_slice(&91u32.to_le_bytes());
    assert!(parse_header(128 * 512, BlockGeometry::raw_image_512(), &sector).is_err());
    let mut sector = header_fixture();
    sector[84..88].copy_from_slice(&127u32.to_le_bytes());
    assert!(parse_header(128 * 512, BlockGeometry::raw_image_512(), &sector).is_err());
}

#[test]
fn gpt_entry_array_corruption_is_rejected() {
    let mut bytes = one_partition_image();
    bytes[2 * 512 + 40] ^= 1;
    assert_eq!(
        discover(bytes).expect_err("entry CRC").category(),
        ErrorCategory::PartitionTable
    );
}

#[test]
fn gpt_takes_precedence_over_a_protective_mbr() {
    let mut bytes = one_partition_image();
    set_entry(&mut bytes, 0, 0, PROTECTIVE_GPT_TYPE, 1, 127);
    bytes[510..512].copy_from_slice(&MBR_SIGNATURE);
    assert!(matches!(
        discover(bytes).expect("GPT parses"),
        SourceLayout::Gpt { .. }
    ));
}

fn image(sectors: usize) -> Vec<u8> {
    let mut bytes = vec![0; sectors * 512];
    bytes[510..512].copy_from_slice(&MBR_SIGNATURE);
    bytes
}

fn set_entry(bytes: &mut [u8], sector: usize, slot: usize, kind: u8, start: u32, count: u32) {
    let base = sector * 512 + PARTITION_TABLE_OFFSET + slot * PARTITION_ENTRY_SIZE;
    bytes[base + 4] = kind;
    bytes[base + 8..base + 12].copy_from_slice(&start.to_le_bytes());
    bytes[base + 12..base + 16].copy_from_slice(&count.to_le_bytes());
}

#[test]
fn discovers_primary_linux_partition() {
    let mut bytes = image(16);
    set_entry(&mut bytes, 0, 0, 0x83, 2, 4);
    let layout = discover(bytes).expect("valid MBR parses");
    assert_eq!(
        layout,
        SourceLayout::Mbr {
            partitions: vec![Partition {
                number: 1,
                byte_offset: 1024,
                byte_length: 2048,
                type_identifier: PartitionType::Mbr(0x83),
                unique_identifier: None
            }]
        }
    );
}

#[test]
fn rejects_primary_partition_past_source_end() {
    let mut bytes = image(16);
    set_entry(&mut bytes, 0, 0, 0x83, 15, 2);
    assert_eq!(
        discover(bytes).expect_err("out of bounds").category(),
        ErrorCategory::PartitionTable
    );
}

#[test]
fn rejects_inconsistent_empty_entry_and_protective_mbr() {
    let mut bytes = image(16);
    set_entry(&mut bytes, 0, 0, 0, 1, 0);
    assert_eq!(
        discover(bytes).expect_err("inconsistent").category(),
        ErrorCategory::PartitionTable
    );
    let mut bytes = image(16);
    set_entry(&mut bytes, 0, 0, PROTECTIVE_GPT_TYPE, 1, 14);
    assert_eq!(
        discover(bytes).expect_err("protective").category(),
        ErrorCategory::PartitionTable
    );
}

#[test]
fn follows_two_logical_partitions() {
    let mut bytes = image(16);
    set_entry(&mut bytes, 0, 0, 0x05, 1, 8);
    set_entry(&mut bytes, 1, 0, 0x83, 1, 2);
    bytes[512 + 510..512 + 512].copy_from_slice(&MBR_SIGNATURE);
    set_entry(&mut bytes, 1, 1, 0x05, 4, 4);
    bytes[5 * 512 + 510..5 * 512 + 512].copy_from_slice(&MBR_SIGNATURE);
    set_entry(&mut bytes, 5, 0, 0x83, 1, 2);
    let SourceLayout::Mbr { partitions } = discover(bytes).expect("valid EBR chain") else {
        panic!("expected MBR")
    };
    assert_eq!(
        partitions.iter().map(|p| p.number).collect::<Vec<_>>(),
        vec![5, 6]
    );
    assert_eq!(partitions[0].byte_offset, 2 * 512);
    assert_eq!(partitions[1].byte_offset, 6 * 512);
}

#[test]
fn rejects_repeated_ebr_offset() {
    let mut bytes = image(16);
    set_entry(&mut bytes, 0, 0, 0x05, 1, 8);
    set_entry(&mut bytes, 1, 0, 0x83, 1, 2);
    set_entry(&mut bytes, 1, 1, 0x05, 0, 8);
    assert_eq!(
        discover(bytes).expect_err("cycle").category(),
        ErrorCategory::PartitionTable
    );
}

#[test]
fn signed_ebr_cycle_is_rejected() {
    let mut bytes = image(16);
    set_entry(&mut bytes, 0, 0, 0x05, 1, 8);
    set_entry(&mut bytes, 1, 0, 0x83, 1, 2);
    set_entry(&mut bytes, 1, 1, 0x05, 0, 8);
    bytes[512 + 510..512 + 512].copy_from_slice(&MBR_SIGNATURE);
    assert_eq!(
        discover(bytes).expect_err("cycle").category(),
        ErrorCategory::PartitionTable
    );
}

#[test]
fn multiple_extended_containers_are_rejected() {
    let mut bytes = image(16);
    set_entry(&mut bytes, 0, 0, 0x05, 1, 4);
    set_entry(&mut bytes, 0, 1, 0x0F, 5, 4);
    assert_eq!(
        discover(bytes).expect_err("two containers").category(),
        ErrorCategory::PartitionTable
    );
}

#[test]
fn primary_and_logical_partitions_are_listed_in_order() {
    let mut bytes = image(16);
    set_entry(&mut bytes, 0, 0, 0x83, 12, 2);
    set_entry(&mut bytes, 0, 1, 0x05, 1, 8);
    set_entry(&mut bytes, 1, 0, 0x83, 1, 2);
    bytes[512 + 510..512 + 512].copy_from_slice(&MBR_SIGNATURE);
    let SourceLayout::Mbr { partitions } = discover(bytes).expect("valid layout") else {
        panic!("expected MBR")
    };
    assert_eq!(
        partitions.iter().map(|p| (p.number, p.byte_offset, p.byte_length)).collect::<Vec<_>>(),
        vec![(1, 12 * 512, 2 * 512), (5, 2 * 512, 2 * 512)]
    );
}

#[test]
fn partition_numbers_increase_across_slot_gaps_and_logical_partitions() {
    let mut bytes = image(16);
    set_entry(&mut bytes, 0, 0, 0x05, 1, 8);
    set_entry(&mut bytes, 0, 2, 0x83, 12, 2);
    set_entry(&mut bytes, 1, 0, 0x83, 1, 2);
    bytes[512 + 510..512 + 512].copy_from_slice(&MBR_SIGNATURE);
    let SourceLayout::Mbr { partitions } = discover(bytes).expect("valid layout") else {
        panic!("expected MBR")
    };
    let numbers = partitions.iter().map(|p| p.number).collect::<Vec<_>>();
    assert_eq!(numbers, vec![3, 5]);
    assert!(numbers.windows(2).all(|pair| pair[0] < pair[1]));
}
