use vstd::prelude::*;

verus! {

/// Time budget for a full or incremental on-chain wallet sync.
pub const BDK_WALLET_SYNC_TIMEOUT_SECS: u64 = 90;

/// Time budget for a Lightning wallet (transaction-index) sync.
pub const LDK_WALLET_SYNC_TIMEOUT_SECS: u64 = 30;

/// Time budget for one fee-rate cache update.
pub const FEE_RATE_CACHE_UPDATE_TIMEOUT_SECS: u64 = 20;

/// Time budget for broadcasting a single transaction.
pub const TX_BROADCAST_TIMEOUT_SECS: u64 = 5;

/// Stop gap used for a full scan of the on-chain wallet.
pub const BDK_CLIENT_STOP_GAP: usize = 20;

/// Concurrency used when syncing the on-chain wallet over Esplora.
pub const BDK_CLIENT_CONCURRENCY: usize = 4;

/// Floor applied to every configured background-sync interval.
pub const WALLET_SYNC_INTERVAL_MINIMUM_SECS: u64 = 10;

/// Period of the Bitcoind chain-polling and fee-rate tickers, and the initial
/// catch-up backoff.
pub const CHAIN_POLLING_INTERVAL_SECS: u64 = 2;

/// Upper bound on the catch-up retry backoff, and the flat delay after a
/// persistent catch-up error.
pub const MAX_BACKOFF_SECS: u64 = 300;

/// The configured periods of the three background-sync tickers used with the
/// transaction-based backends (Esplora and Electrum).
#[derive(Clone, Copy, Debug)]
pub struct BackgroundSyncConfig {
    /// Seconds between on-chain wallet syncs.
    pub onchain_wallet_sync_interval_secs: u64,
    /// Seconds between Lightning wallet syncs.
    pub lightning_wallet_sync_interval_secs: u64,
    /// Seconds between fee-rate cache updates.
    pub fee_rate_cache_update_interval_secs: u64,
}

/// A configured interval clamped to the minimum sync interval.
pub open spec fn clamped_interval(secs: u64) -> u64 {
    if secs < WALLET_SYNC_INTERVAL_MINIMUM_SECS {
        WALLET_SYNC_INTERVAL_MINIMUM_SECS
    } else {
        secs
    }
}

/// The effective ticker periods of the transaction-based sync loop, in the
/// order (on-chain wallet, Lightning wallet, fee-rate update): each configured
/// interval clamped to the minimum.
pub fn sync_loop_intervals(config: &BackgroundSyncConfig) -> (r: (u64, u64, u64))
    ensures
        r.0 == clamped_interval(config.onchain_wallet_sync_interval_secs),
        r.1 == clamped_interval(config.lightning_wallet_sync_interval_secs),
        r.2 == clamped_interval(config.fee_rate_cache_update_interval_secs),
{
    let onchain = if config.onchain_wallet_sync_interval_secs < WALLET_SYNC_INTERVAL_MINIMUM_SECS {
        WALLET_SYNC_INTERVAL_MINIMUM_SECS
    } else {
        config.onchain_wallet_sync_interval_secs
    };
    let lightning = if config.lightning_wallet_sync_interval_secs
        < WALLET_SYNC_INTERVAL_MINIMUM_SECS {
        WALLET_SYNC_INTERVAL_MINIMUM_SECS
    } else {
        config.lightning_wallet_sync_interval_secs
    };
    let fee_rate = if config.fee_rate_cache_update_interval_secs
        < WALLET_SYNC_INTERVAL_MINIMUM_SECS {
        WALLET_SYNC_INTERVAL_MINIMUM_SECS
    } else {
        config.fee_rate_cache_update_interval_secs
    };
    (onchain, lightning, fee_rate)
}

} // verus!
