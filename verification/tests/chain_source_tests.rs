use bitcoin::BlockHash;

use chain_source::chain_source::{
    combine_with_persist, electrum_not_started_error, persist_outcome_result, record_mempool_sync,
    ChainSource, ElectrumWork, LightningSyncOutcome, MempoolSyncOutcome, SpvPollOutcome,
    WalletUpdateOutcome,
};
use chain_source::error::Error;
use chain_source::fee_estimator::{ConfirmationTarget, Network};
use chain_source::metrics::NodeMetrics;
use chain_source::types::BestBlock;

fn best_block(n: u8, height: u32) -> BestBlock {
    let hash = <BlockHash as bitcoin::hashes::Hash>::from_byte_array([n; 32]);
    BestBlock { block_hash: hash, height }
}

#[test]
fn concurrent_wallet_syncs_piggyback_on_one_episode() {
    let mut source = ChainSource::new_esplora(Network::Bitcoin, NodeMetrics::new());

    // Two concurrent callers: the first owns the sync, the second subscribes.
    let first = source.begin_onchain_wallet_sync();
    assert!(first.subscriber.is_none());
    assert!(!first.incremental);
    let second = source.begin_onchain_wallet_sync();
    assert_eq!(second.subscriber, Some(0));

    // One backend round-trip happens; both callers see the same `Ok`.
    let pending = source.record_onchain_sync_outcome(WalletUpdateOutcome::Applied, Some(42));
    assert_eq!(pending, Ok(()));
    let res = combine_with_persist(pending, Ok(()));
    let deliveries = source.finish_onchain_wallet_sync(res);
    assert_eq!(deliveries, vec![Ok(())]);
    assert_eq!(res, Ok(()));

    // The success was recorded, so the next sync is incremental.
    assert_eq!(source.node_metrics.latest_onchain_wallet_sync_timestamp, Some(42));
    let third = source.begin_onchain_wallet_sync();
    assert!(third.subscriber.is_none());
    assert!(third.incremental);
}

#[test]
fn wallet_sync_outcomes_map_to_their_errors() {
    let mut source = ChainSource::new_esplora(Network::Bitcoin, NodeMetrics::new());
    source.begin_onchain_wallet_sync();
    assert_eq!(
        source.record_onchain_sync_outcome(WalletUpdateOutcome::HttpError, Some(1)),
        Err(Error::WalletOperationFailed)
    );
    assert_eq!(
        source.record_onchain_sync_outcome(WalletUpdateOutcome::TimedOut, Some(1)),
        Err(Error::WalletOperationTimeout)
    );
    assert_eq!(
        source.record_onchain_sync_outcome(
            WalletUpdateOutcome::ApplyFailed(Error::WalletOperationFailed),
            Some(1)
        ),
        Err(Error::WalletOperationFailed)
    );
    // Failures record no timestamp.
    assert_eq!(source.node_metrics.latest_onchain_wallet_sync_timestamp, None);
}

#[test]
fn a_failed_persist_overrides_a_successful_sync() {
    let pending: Result<(), Error> = Ok(());
    let persist = persist_outcome_result(false);
    assert_eq!(combine_with_persist(pending, persist), Err(Error::PersistenceFailed));
    // A failure of the work itself wins over the persistence outcome.
    let pending: Result<(), Error> = Err(Error::TxSyncFailed);
    assert_eq!(combine_with_persist(pending, Ok(())), Err(Error::TxSyncFailed));
}

#[test]
fn lightning_sync_outcomes_map_to_their_errors() {
    let mut source = ChainSource::new_electrum(Network::Bitcoin, NodeMetrics::new());
    assert!(source.begin_lightning_wallet_sync().is_none());
    assert_eq!(
        source.record_lightning_sync_outcome(LightningSyncOutcome::TimedOut, Some(1)),
        Err(Error::TxSyncTimeout)
    );
    assert_eq!(
        source.record_lightning_sync_outcome(LightningSyncOutcome::Synced, Some(9)),
        Ok(())
    );
    assert_eq!(source.node_metrics.latest_lightning_wallet_sync_timestamp, Some(9));
    let deliveries = source.finish_lightning_wallet_sync(Ok(()));
    assert!(deliveries.is_empty());
}

#[test]
fn the_polling_tick_settles_and_advances_the_chain_tip() {
    let mut source = ChainSource::new_bitcoind(Network::Regtest, NodeMetrics::new());
    assert!(source.begin_wallet_polling().is_none());

    // No stored tip and no validated header: the tick fails.
    assert_eq!(source.ensure_chain_tip(None), Err(Error::TxSyncFailed));
    let deliveries = source.finish_wallet_polling(Err(Error::TxSyncFailed));
    assert!(deliveries.is_empty());

    // A freshly validated header is stored and reused.
    source.begin_wallet_polling();
    let tip = best_block(1, 100);
    let settled = source.ensure_chain_tip(Some(tip)).unwrap();
    assert_eq!(settled.height, 100);
    assert_eq!(source.current_chain_tip().unwrap().height, 100);

    // A better, fully connected tip replaces it; other outcomes do not.
    assert_eq!(source.record_spv_poll(SpvPollOutcome::BetterAndConnected(best_block(2, 101))), Ok(()));
    assert_eq!(source.current_chain_tip().unwrap().height, 101);
    assert_eq!(source.record_spv_poll(SpvPollOutcome::OtherOk), Ok(()));
    assert_eq!(source.current_chain_tip().unwrap().height, 101);
    assert_eq!(source.record_spv_poll(SpvPollOutcome::Failed), Err(Error::TxSyncFailed));

    // The mempool step only fails the tick when fetching fails.
    assert_eq!(record_mempool_sync(MempoolSyncOutcome::Applied), Ok(()));
    assert_eq!(record_mempool_sync(MempoolSyncOutcome::ApplyFailed), Ok(()));
    assert_eq!(record_mempool_sync(MempoolSyncOutcome::FetchFailed), Err(Error::TxSyncFailed));

    source.record_polling_success(Some(77));
    assert_eq!(source.node_metrics.latest_onchain_wallet_sync_timestamp, Some(77));
    assert_eq!(source.node_metrics.latest_lightning_wallet_sync_timestamp, Some(77));
    let deliveries = source.finish_wallet_polling(Ok(()));
    assert!(deliveries.is_empty());
}

#[test]
fn the_initial_catchup_blocks_the_polling_loop() {
    let mut source = ChainSource::new_bitcoind(Network::Bitcoin, NodeMetrics::new());
    source.begin_initial_catchup();

    // A manual sync arriving during catch-up subscribes instead of running.
    let ticket = source.begin_wallet_polling();
    assert_eq!(ticket, Some(0));

    let tip = best_block(9, 800_000);
    source.record_catchup_success(tip, Some(1234));
    assert_eq!(source.current_chain_tip().unwrap().height, 800_000);
    assert_eq!(source.node_metrics.latest_onchain_wallet_sync_timestamp, Some(1234));
    assert_eq!(source.node_metrics.latest_lightning_wallet_sync_timestamp, Some(1234));

    // Publishing `Ok` unblocks the subscriber; the lock resets.
    let deliveries = source.finish_wallet_polling(Ok(()));
    assert_eq!(deliveries, vec![Ok(())]);
    assert!(source.begin_wallet_polling().is_none());
}

#[test]
fn a_missing_electrum_client_surfaces_the_documented_errors() {
    assert_eq!(
        electrum_not_started_error(ElectrumWork::OnchainWalletSync),
        Error::FeerateEstimationUpdateFailed
    );
    assert_eq!(
        electrum_not_started_error(ElectrumWork::LightningWalletSync),
        Error::TxSyncFailed
    );
    assert_eq!(
        electrum_not_started_error(ElectrumWork::FeeRateUpdate),
        Error::FeerateEstimationUpdateFailed
    );
}

#[test]
fn electrum_fee_updates_install_the_delivered_cache() {
    let mut source = ChainSource::new_electrum(Network::Bitcoin, NodeMetrics::new());
    let cache = vec![(ConfirmationTarget::OnchainPayment, 600u64)];
    assert_eq!(source.update_fee_rate_estimates_electrum(Ok(cache), Some(4)), Ok(()));
    assert_eq!(source.fee_estimator.fee_rate(ConfirmationTarget::OnchainPayment), Some(600));
    assert_eq!(source.node_metrics.latest_fee_rate_cache_update_timestamp, Some(4));

    let failed = source.update_fee_rate_estimates_electrum(
        Err(Error::FeerateEstimationUpdateFailed),
        Some(5),
    );
    assert_eq!(failed, Err(Error::FeerateEstimationUpdateFailed));
    assert_eq!(source.node_metrics.latest_fee_rate_cache_update_timestamp, Some(4));
}
