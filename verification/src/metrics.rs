use vstd::prelude::*;

verus! {

/// Blocks between two archival sweeps of fully resolved channel monitors.
pub const RESOLVED_CHANNEL_MONITOR_ARCHIVAL_INTERVAL: u32 = 6;

/// The process-wide record of when each background work kind last succeeded.
///
/// Timestamps are unix seconds, read from the wall clock by the embedding node
/// (`None` when the clock reading failed). The record is persisted by the
/// embedding node after every successful update.
#[derive(Clone, Copy, Debug)]
pub struct NodeMetrics {
    /// When the on-chain wallet last finished a successful sync.
    pub latest_onchain_wallet_sync_timestamp: Option<u64>,
    /// When the Lightning wallet last finished a successful sync.
    pub latest_lightning_wallet_sync_timestamp: Option<u64>,
    /// When the fee-rate cache was last updated.
    pub latest_fee_rate_cache_update_timestamp: Option<u64>,
    /// The height at which channel monitors were last archived.
    pub latest_channel_monitor_archival_height: Option<u32>,
}

/// `m` with the on-chain wallet sync timestamp replaced.
pub open spec fn onchain_sync_recorded(m: NodeMetrics, now_opt: Option<u64>) -> NodeMetrics {
    NodeMetrics { latest_onchain_wallet_sync_timestamp: now_opt, ..m }
}

/// `m` with the Lightning wallet sync timestamp replaced.
pub open spec fn lightning_sync_recorded(m: NodeMetrics, now_opt: Option<u64>) -> NodeMetrics {
    NodeMetrics { latest_lightning_wallet_sync_timestamp: now_opt, ..m }
}

/// `m` with the fee-rate cache update timestamp replaced.
pub open spec fn fee_rate_update_recorded(m: NodeMetrics, now_opt: Option<u64>) -> NodeMetrics {
    NodeMetrics { latest_fee_rate_cache_update_timestamp: now_opt, ..m }
}

impl NodeMetrics {
    /// A fresh record: nothing has succeeded yet.
    pub fn new() -> (r: Self)
        ensures
            r.latest_onchain_wallet_sync_timestamp is None,
            r.latest_lightning_wallet_sync_timestamp is None,
            r.latest_fee_rate_cache_update_timestamp is None,
            r.latest_channel_monitor_archival_height is None,
    {
        NodeMetrics {
            latest_onchain_wallet_sync_timestamp: None,
            latest_lightning_wallet_sync_timestamp: None,
            latest_fee_rate_cache_update_timestamp: None,
            latest_channel_monitor_archival_height: None,
        }
    }

    /// Records a successful on-chain wallet sync at the given clock reading.
    pub fn record_onchain_wallet_sync(&mut self, now_opt: Option<u64>)
        ensures
            *final(self) == onchain_sync_recorded(*old(self), now_opt),
    {
        self.latest_onchain_wallet_sync_timestamp = now_opt;
    }

    /// Records a successful Lightning wallet sync at the given clock reading.
    pub fn record_lightning_wallet_sync(&mut self, now_opt: Option<u64>)
        ensures
            *final(self) == lightning_sync_recorded(*old(self), now_opt),
    {
        self.latest_lightning_wallet_sync_timestamp = now_opt;
    }

    /// Records a successful fee-rate cache update at the given clock reading.
    pub fn record_fee_rate_cache_update(&mut self, now_opt: Option<u64>)
        ensures
            *final(self) == fee_rate_update_recorded(*old(self), now_opt),
    {
        self.latest_fee_rate_cache_update_timestamp = now_opt;
    }

    /// Records a successful chain poll or listener catch-up, which syncs the
    /// on-chain and the Lightning wallet in one go.
    pub fn record_wallet_polling_sync(&mut self, now_opt: Option<u64>)
        ensures
            *final(self) == lightning_sync_recorded(
                onchain_sync_recorded(*old(self), now_opt),
                now_opt,
            ),
    {
        self.latest_onchain_wallet_sync_timestamp = now_opt;
        self.latest_lightning_wallet_sync_timestamp = now_opt;
    }
}

/// Whether a successful Lightning wallet sync at height `cur_height` is due to
/// archive fully resolved channel monitors: either no archival happened yet,
/// or the last one lies at least the archival interval below `cur_height`.
pub open spec fn archival_due(m: NodeMetrics, cur_height: u32) -> bool {
    match m.latest_channel_monitor_archival_height {
        None => true,
        Some(h) => cur_height >= h + RESOLVED_CHANNEL_MONITOR_ARCHIVAL_INTERVAL,
    }
}

/// Decides, after a successful Lightning wallet sync, whether fully resolved
/// channel monitors should be archived now, and records the height when so.
///
/// Archival is performed iff the current height has reached the last archival
/// height plus [`RESOLVED_CHANNEL_MONITOR_ARCHIVAL_INTERVAL`], or no archival
/// has happened yet. When the decision is positive, the embedding node asks
/// the chain monitor to archive and persists the updated record.
pub fn periodically_archive_fully_resolved_monitors(
    node_metrics: &mut NodeMetrics,
    cur_height: u32,
) -> (should_archive: bool)
    ensures
        should_archive == archival_due(*old(node_metrics), cur_height),
        should_archive ==> *final(node_metrics) == (NodeMetrics {
            latest_channel_monitor_archival_height: Some(cur_height),
            ..*old(node_metrics)
        }),
        !should_archive ==> *final(node_metrics) == *old(node_metrics),
{
    let should_archive = match node_metrics.latest_channel_monitor_archival_height {
        None => true,
        Some(h) => {
            cur_height as u64 >= h as u64 + RESOLVED_CHANNEL_MONITOR_ARCHIVAL_INTERVAL as u64
        },
    };
    if should_archive {
        node_metrics.latest_channel_monitor_archival_height = Some(cur_height);
    }
    should_archive
}

/// Orders two optional timestamps: an absent reading precedes everything.
pub open spec fn timestamp_leq(a: Option<u64>, b: Option<u64>) -> bool {
    match a {
        None => true,
        Some(x) => match b {
            None => false,
            Some(y) => x <= y,
        },
    }
}

/// Monotone metrics: successful updates recorded at non-decreasing clock
/// readings leave every `latest_*_timestamp` non-decreasing.
pub proof fn lemma_timestamps_monotone(m: NodeMetrics, t1: u64, t2: u64)
    requires
        t1 <= t2,
    ensures
        timestamp_leq(
            onchain_sync_recorded(m, Some(t1)).latest_onchain_wallet_sync_timestamp,
            onchain_sync_recorded(
                onchain_sync_recorded(m, Some(t1)),
                Some(t2),
            ).latest_onchain_wallet_sync_timestamp,
        ),
        timestamp_leq(
            lightning_sync_recorded(m, Some(t1)).latest_lightning_wallet_sync_timestamp,
            lightning_sync_recorded(
                lightning_sync_recorded(m, Some(t1)),
                Some(t2),
            ).latest_lightning_wallet_sync_timestamp,
        ),
        timestamp_leq(
            fee_rate_update_recorded(m, Some(t1)).latest_fee_rate_cache_update_timestamp,
            fee_rate_update_recorded(
                fee_rate_update_recorded(m, Some(t1)),
                Some(t2),
            ).latest_fee_rate_cache_update_timestamp,
        ),
{
}

} // verus!
