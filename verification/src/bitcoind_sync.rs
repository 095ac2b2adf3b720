use vstd::prelude::*;

use crate::config::MAX_BACKOFF_SECS;
use crate::types::BestBlock;

verus! {

/// Which chain listener an entry of the catch-up list seeds.
#[derive(Clone, Copy, Debug, PartialEq, Eq, Structural)]
pub enum ChainListenerId {
    /// The on-chain wallet.
    OnchainWallet,
    /// The channel manager.
    ChannelManager,
    /// The output sweeper.
    OutputSweeper,
    /// The chain monitor, standing in for every channel monitor.
    ChainMonitor,
}

/// Whether `monitors[i]` is the worst (lowest) best block: no other monitor
/// is lower, and every earlier one is strictly higher (first-encountered
/// tie-break).
pub open spec fn is_first_min_height(monitors: Seq<BestBlock>, i: int) -> bool {
    &&& 0 <= i < monitors.len()
    &&& forall|j: int| 0 <= j < monitors.len() ==> monitors[i].height <= monitors[j].height
    &&& forall|j: int| 0 <= j < i ==> monitors[j].height > monitors[i].height
}

/// The worst best block across all channel monitors: the first monitor of
/// minimal height, or nothing when no monitor exists.
pub fn worst_monitor_best_block(monitors: &Vec<BestBlock>) -> (r: Option<BestBlock>)
    ensures
        r is Some <==> monitors@.len() > 0,
        r matches Some(b) ==> exists|i: int|
            is_first_min_height(monitors@, i) && b == monitors@[i],
{
    if monitors.len() == 0 {
        return None;
    }
    let mut best: usize = 0;
    let mut i: usize = 1;
    while i < monitors.len()
        invariant
            1 <= i <= monitors@.len(),
            0 <= best < i,
            forall|j: int| 0 <= j < i ==> monitors@[best as int].height <= monitors@[j].height,
            forall|j: int| 0 <= j < best ==> monitors@[j].height > monitors@[best as int].height,
        decreases monitors@.len() - i,
    {
        if monitors[i].height < monitors[best].height {
            best = i;
        }
        i = i + 1;
    }
    proof {
        assert(is_first_min_height(monitors@, best as int));
    }
    Some(monitors[best])
}

/// Assembles the listener list the initial catch-up hands to the block-sync
/// collaborator: the on-chain wallet, the channel manager and the output
/// sweeper, each seeded with its own best block hash, and — only when at
/// least one channel monitor exists — the chain monitor, seeded with the hash
/// of the worst (lowest) best block across all channel monitors.
pub fn collect_chain_listeners(
    onchain_wallet_block_hash: bitcoin::BlockHash,
    channel_manager_block_hash: bitcoin::BlockHash,
    sweeper_block_hash: bitcoin::BlockHash,
    monitor_best_blocks: &Vec<BestBlock>,
) -> (r: Vec<(bitcoin::BlockHash, ChainListenerId)>)
    ensures
        r@.len() == (if monitor_best_blocks@.len() == 0 {
            3int
        } else {
            4int
        }),
        r@[0] == (onchain_wallet_block_hash, ChainListenerId::OnchainWallet),
        r@[1] == (channel_manager_block_hash, ChainListenerId::ChannelManager),
        r@[2] == (sweeper_block_hash, ChainListenerId::OutputSweeper),
        monitor_best_blocks@.len() > 0 ==> r@[3].1 == ChainListenerId::ChainMonitor && (exists|
            i: int,
        |
            is_first_min_height(monitor_best_blocks@, i) && r@[3].0 == monitor_best_blocks@[
                i
            ].block_hash),
{
    let mut listeners: Vec<(bitcoin::BlockHash, ChainListenerId)> = Vec::new();
    listeners.push((onchain_wallet_block_hash, ChainListenerId::OnchainWallet));
    listeners.push((channel_manager_block_hash, ChainListenerId::ChannelManager));
    listeners.push((sweeper_block_hash, ChainListenerId::OutputSweeper));
    match worst_monitor_best_block(monitor_best_blocks) {
        Some(worst) => {
            listeners.push((worst.block_hash, ChainListenerId::ChainMonitor));
        },
        None => {},
    }
    listeners
}

/// The catch-up retry policy at one failed attempt: a transient error sleeps
/// the current backoff and doubles it (capped at [`MAX_BACKOFF_SECS`]); a
/// persistent error sleeps the cap and leaves the backoff unchanged.
pub open spec fn backoff_step(backoff: u64, transient: bool) -> (u64, u64) {
    if transient {
        (
            backoff,
            if backoff * 2 > MAX_BACKOFF_SECS {
                MAX_BACKOFF_SECS
            } else {
                (backoff * 2) as u64
            },
        )
    } else {
        (MAX_BACKOFF_SECS, backoff)
    }
}

/// Decides, after a failed catch-up attempt, how long to sleep before the
/// next attempt and which backoff to carry into it.
pub fn next_catchup_backoff(backoff: u64, transient: bool) -> (r: (u64, u64))
    requires
        backoff <= MAX_BACKOFF_SECS,
    ensures
        r == backoff_step(backoff, transient),
        r.1 <= MAX_BACKOFF_SECS,
{
    if transient {
        let doubled = backoff * 2;
        let next = if doubled > MAX_BACKOFF_SECS {
            MAX_BACKOFF_SECS
        } else {
            doubled
        };
        (backoff, next)
    } else {
        (MAX_BACKOFF_SECS, backoff)
    }
}

} // verus!
