use bitcoin::BlockHash;

use chain_source::bitcoind_sync::{
    collect_chain_listeners, next_catchup_backoff, worst_monitor_best_block, ChainListenerId,
};
use chain_source::types::BestBlock;

fn hash(n: u8) -> BlockHash {
    <BlockHash as bitcoin::hashes::Hash>::from_byte_array([n; 32])
}

fn best_block(n: u8, height: u32) -> BestBlock {
    BestBlock { block_hash: hash(n), height }
}

#[test]
fn transient_errors_back_off_exponentially() {
    // Three transient failures sleep 2 s, 4 s and 8 s before the fourth try.
    let mut backoff: u64 = 2;
    let mut sleeps = Vec::new();
    for _ in 0..3 {
        let (sleep, next) = next_catchup_backoff(backoff, true);
        sleeps.push(sleep);
        backoff = next;
    }
    assert_eq!(sleeps, vec![2, 4, 8]);
    assert_eq!(backoff, 16);
}

#[test]
fn backoff_caps_at_five_minutes() {
    let (sleep, next) = next_catchup_backoff(256, true);
    assert_eq!(sleep, 256);
    assert_eq!(next, 300);
    let (sleep, next) = next_catchup_backoff(300, true);
    assert_eq!((sleep, next), (300, 300));
}

#[test]
fn persistent_errors_sleep_the_cap_and_keep_the_backoff() {
    let (sleep, next) = next_catchup_backoff(8, false);
    assert_eq!(sleep, 300);
    assert_eq!(next, 8);
}

#[test]
fn catchup_seeds_the_monitor_listener_with_the_lowest_best_block() {
    let monitors = vec![best_block(0x0a, 799_995), best_block(0x0b, 799_998)];
    let listeners = collect_chain_listeners(hash(1), hash(2), hash(3), &monitors);
    assert_eq!(listeners.len(), 4);
    assert_eq!(listeners[0], (hash(1), ChainListenerId::OnchainWallet));
    assert_eq!(listeners[1], (hash(2), ChainListenerId::ChannelManager));
    assert_eq!(listeners[2], (hash(3), ChainListenerId::OutputSweeper));
    // wallet=800000, cm=800002, sweeper=800001 notwithstanding, the monitor
    // entry starts from the height-799995 monitor's hash.
    assert_eq!(listeners[3], (hash(0x0a), ChainListenerId::ChainMonitor));
}

#[test]
fn no_monitors_means_no_monitor_listener() {
    let listeners = collect_chain_listeners(hash(1), hash(2), hash(3), &Vec::new());
    assert_eq!(listeners.len(), 3);
}

#[test]
fn equal_heights_pick_the_first_monitor() {
    let monitors = vec![best_block(0x0c, 500), best_block(0x0d, 500), best_block(0x0e, 600)];
    let worst = worst_monitor_best_block(&monitors).unwrap();
    assert_eq!(worst.block_hash, hash(0x0c));
    assert_eq!(worst.height, 500);
    assert!(worst_monitor_best_block(&Vec::new()).is_none());
}
