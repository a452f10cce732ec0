use linuxfs::block::MemoryReader;
use linuxfs::error::ErrorCategory;
use linuxfs::physical::{
    read_cached, PhysicalReadCache, PHYSICAL_READ_CACHE_CHUNKS, PHYSICAL_READ_CHUNK_SIZE,
};

fn disk(len: usize) -> Vec<u8> {
    (0..len).map(|i| (i % 251) as u8).collect()
}

#[test]
fn reads_through_the_cache_match_the_disk_across_piece_boundaries() {
    let bytes = disk(300_000);
    let device = MemoryReader::new(bytes.clone());
    let mut cache = PhysicalReadCache::new();
    for &(offset, len) in &[(0usize, 512usize), (65_000, 1_000), (65_536, 10), (131_000, 100_000), (299_990, 10), (0, 0)] {
        let mut destination = vec![0xAA; len];
        read_cached(&device, &mut cache, offset as u64, &mut destination).expect("in range");
        assert_eq!(destination, bytes[offset..offset + len].to_vec());
    }
    let mut again = vec![0u8; 4096];
    read_cached(&device, &mut cache, 65_530, &mut again).expect("cached");
    assert_eq!(again, bytes[65_530..65_530 + 4096].to_vec());
}

#[test]
fn reads_past_the_end_fail_without_changing_the_destination() {
    let device = MemoryReader::new(disk(1000));
    let mut cache = PhysicalReadCache::new();
    let mut destination = vec![7u8; 16];
    let error = read_cached(&device, &mut cache, 990, &mut destination).expect_err("past end");
    assert_eq!(error.category(), ErrorCategory::StorageAccess);
    assert_eq!(destination, vec![7u8; 16]);
}

#[test]
fn the_cache_keeps_the_most_recent_pieces_only() {
    let mut cache = PhysicalReadCache::new();
    for index in 0..(PHYSICAL_READ_CACHE_CHUNKS as u64 + 2) {
        cache.put(index * PHYSICAL_READ_CHUNK_SIZE, vec![index as u8]);
    }
    assert_eq!(cache.take(0), None);
    assert_eq!(cache.take(PHYSICAL_READ_CHUNK_SIZE), None);
    assert_eq!(cache.take(2 * PHYSICAL_READ_CHUNK_SIZE), Some(vec![2u8]));
    assert_eq!(cache.take(2 * PHYSICAL_READ_CHUNK_SIZE), None);
    let device = MemoryReader::new(disk(5 * 1024 * 1024));
    let mut fresh = PhysicalReadCache::new();
    let mut whole = vec![0u8; 5 * 1024 * 1024];
    read_cached(&device, &mut fresh, 0, &mut whole).expect("whole disk");
    assert_eq!(whole, disk(5 * 1024 * 1024));
}
