use bitcoin::BlockHash;

use chain_source::header_cache::{BoundedHeaderCache, MAX_HEADER_CACHE_ENTRIES};

fn hash(n: u8) -> BlockHash {
    <BlockHash as bitcoin::hashes::Hash>::from_byte_array([n; 32])
}

#[test]
fn look_up_finds_what_was_connected() {
    let mut cache: BoundedHeaderCache<u32> = BoundedHeaderCache::new();
    cache.block_connected(hash(1), 100);
    cache.block_connected(hash(2), 101);
    assert_eq!(cache.look_up(&hash(1)), Some(&100));
    assert_eq!(cache.look_up(&hash(2)), Some(&101));
    assert_eq!(cache.look_up(&hash(3)), None);
    assert_eq!(cache.len(), 2);
}

#[test]
fn connecting_the_same_hash_replaces_the_entry() {
    let mut cache: BoundedHeaderCache<u32> = BoundedHeaderCache::new();
    cache.block_connected(hash(1), 100);
    cache.block_connected(hash(1), 200);
    assert_eq!(cache.len(), 1);
    assert_eq!(cache.look_up(&hash(1)), Some(&200));
}

#[test]
fn disconnecting_removes_and_returns_the_header() {
    let mut cache: BoundedHeaderCache<u32> = BoundedHeaderCache::new();
    cache.block_connected(hash(1), 100);
    assert_eq!(cache.block_disconnected(&hash(1)), Some(100));
    assert_eq!(cache.block_disconnected(&hash(1)), None);
    assert_eq!(cache.len(), 0);
}

#[test]
fn a_full_cache_evicts_its_oldest_entry() {
    let mut cache: BoundedHeaderCache<usize> = BoundedHeaderCache::new();
    for i in 0..MAX_HEADER_CACHE_ENTRIES {
        cache.block_connected(<BlockHash as bitcoin::hashes::Hash>::from_byte_array(byte_hash(i)), i);
    }
    assert_eq!(cache.len(), MAX_HEADER_CACHE_ENTRIES);
    // The first connected block is the oldest; one more eviction pushes it out.
    assert!(cache.look_up(&<BlockHash as bitcoin::hashes::Hash>::from_byte_array(byte_hash(0))).is_some());
    cache.block_connected(<BlockHash as bitcoin::hashes::Hash>::from_byte_array(byte_hash(MAX_HEADER_CACHE_ENTRIES)), 999);
    assert_eq!(cache.len(), MAX_HEADER_CACHE_ENTRIES);
    assert!(cache.look_up(&<BlockHash as bitcoin::hashes::Hash>::from_byte_array(byte_hash(0))).is_none());
    assert!(cache.look_up(&<BlockHash as bitcoin::hashes::Hash>::from_byte_array(byte_hash(1))).is_some());
    assert_eq!(
        cache.look_up(&<BlockHash as bitcoin::hashes::Hash>::from_byte_array(byte_hash(MAX_HEADER_CACHE_ENTRIES))),
        Some(&999)
    );
}

fn byte_hash(i: usize) -> [u8; 32] {
    let mut bytes = [0u8; 32];
    bytes[0] = (i % 256) as u8;
    bytes[1] = (i / 256) as u8;
    bytes
}
