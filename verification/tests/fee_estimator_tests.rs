use chain_source::chain_source::{ChainSource, FeeEstimatesFetch};
use chain_source::error::Error;
use chain_source::fee_estimator::{
    bitcoind_estimation_request, get_all_conf_targets, get_num_block_defaults_for_target,
    BitcoindEstimateRequest, ConfirmationTarget, FeeEstimateOutcome, FeeRateEstimationMode,
    LdkConfirmationTarget, Network,
};
use chain_source::metrics::NodeMetrics;

fn all_failed() -> Vec<(ConfirmationTarget, FeeEstimateOutcome)> {
    get_all_conf_targets().into_iter().map(|t| (t, FeeEstimateOutcome::Failed)).collect()
}

fn all_rated(rate: u64) -> Vec<(ConfirmationTarget, FeeEstimateOutcome)> {
    get_all_conf_targets().into_iter().map(|t| (t, FeeEstimateOutcome::Rate(rate))).collect()
}

#[test]
fn esplora_empty_estimates_fail_closed_on_mainnet() {
    let mut source = ChainSource::new_esplora(Network::Bitcoin, NodeMetrics::new());
    let res = source.update_fee_rate_estimates_esplora(FeeEstimatesFetch::Fetched(vec![]), Some(1));
    assert_eq!(res, Err(Error::FeerateEstimationUpdateFailed));
    // The cache is untouched and no update was recorded.
    assert_eq!(source.fee_estimator.fee_rate(ConfirmationTarget::OnchainPayment), None);
    assert_eq!(source.node_metrics.latest_fee_rate_cache_update_timestamp, None);
}

#[test]
fn esplora_empty_estimates_fall_back_off_mainnet() {
    let mut source = ChainSource::new_esplora(Network::Signet, NodeMetrics::new());
    let res = source.update_fee_rate_estimates_esplora(FeeEstimatesFetch::Fetched(vec![]), Some(5));
    assert!(res.is_ok());
    for target in get_all_conf_targets() {
        assert_eq!(source.fee_estimator.fee_rate(target), Some(250));
    }
    assert_eq!(source.node_metrics.latest_fee_rate_cache_update_timestamp, Some(5));
}

#[test]
fn esplora_estimates_pick_the_highest_target_at_or_below() {
    // Estimates keyed by block target, in sat/kwu.
    let estimates: Vec<(u16, u64)> = vec![(1, 5000), (6, 2000), (25, 1000)];
    let mut source = ChainSource::new_esplora(Network::Signet, NodeMetrics::new());
    let res = source
        .update_fee_rate_estimates_esplora(FeeEstimatesFetch::Fetched(estimates), Some(10));
    assert!(res.is_ok());

    // OnchainPayment targets 6 blocks: the 6-block estimate applies.
    assert_eq!(source.fee_estimator.fee_rate(ConfirmationTarget::OnchainPayment), Some(2000));
    // MaximumFeeEstimate targets 1 block: the 1-block estimate applies.
    assert_eq!(
        source.fee_estimator.fee_rate(ConfirmationTarget::Lightning(
            LdkConfirmationTarget::MaximumFeeEstimate
        )),
        Some(5000)
    );
    // MinAllowedAnchorChannelRemoteFee targets 1008 blocks: the highest
    // available target at or below (25 blocks) applies.
    assert_eq!(
        source.fee_estimator.fee_rate(ConfirmationTarget::Lightning(
            LdkConfirmationTarget::MinAllowedAnchorChannelRemoteFee
        )),
        Some(1000)
    );
}

#[test]
fn esplora_estimates_clamp_to_the_floor() {
    // 100 sat/kwu is below the 1 sat/vB floor of 250 sat/kwu.
    let estimates: Vec<(u16, u64)> = vec![(1, 100)];
    let mut source = ChainSource::new_esplora(Network::Regtest, NodeMetrics::new());
    source
        .update_fee_rate_estimates_esplora(FeeEstimatesFetch::Fetched(estimates), Some(10))
        .unwrap();
    for target in get_all_conf_targets() {
        assert_eq!(source.fee_estimator.fee_rate(target), Some(250));
    }
}

#[test]
fn esplora_fetch_failure_and_timeout_map_to_their_errors() {
    let mut source = ChainSource::new_esplora(Network::Bitcoin, NodeMetrics::new());
    assert_eq!(
        source.update_fee_rate_estimates_esplora(FeeEstimatesFetch::FetchFailed, Some(1)),
        Err(Error::FeerateEstimationUpdateFailed)
    );
    assert_eq!(
        source.update_fee_rate_estimates_esplora(FeeEstimatesFetch::TimedOut, Some(1)),
        Err(Error::FeerateEstimationUpdateTimeout)
    );
}

#[test]
fn fee_rate_update_is_idempotent() {
    let estimates: Vec<(u16, u64)> = vec![(1, 5000), (6, 2000)];
    let mut source = ChainSource::new_esplora(Network::Signet, NodeMetrics::new());
    let first = source
        .update_fee_rate_estimates_esplora(FeeEstimatesFetch::Fetched(estimates.clone()), Some(1))
        .unwrap();
    assert!(first);
    let second = source
        .update_fee_rate_estimates_esplora(FeeEstimatesFetch::Fetched(estimates), Some(2))
        .unwrap();
    assert!(!second);
}

#[test]
fn bitcoind_signet_persistent_failure_resolves_every_target_to_the_floor() {
    let mut source = ChainSource::new_bitcoind(Network::Signet, NodeMetrics::new());
    let res = source.update_fee_rate_estimates_bitcoind(&all_failed(), Some(3));
    assert!(res.is_ok());
    for target in get_all_conf_targets() {
        assert_eq!(source.fee_estimator.fee_rate(target), Some(250));
    }
    assert_eq!(source.node_metrics.latest_fee_rate_cache_update_timestamp, Some(3));
}

#[test]
fn bitcoind_testnet_persistent_failure_skips_the_update() {
    let mut source = ChainSource::new_bitcoind(Network::Testnet, NodeMetrics::new());
    // Prime the cache with real rates first.
    let primed = source.update_fee_rate_estimates_bitcoind(&all_rated(1000), Some(1));
    assert!(primed.is_ok());

    let res = source.update_fee_rate_estimates_bitcoind(&all_failed(), Some(2));
    assert_eq!(res, Ok(false));
    // The cache and the update timestamp are unchanged.
    for target in get_all_conf_targets() {
        assert_eq!(source.fee_estimator.fee_rate(target), Some(1000));
    }
    assert_eq!(source.node_metrics.latest_fee_rate_cache_update_timestamp, Some(1));
}

#[test]
fn bitcoind_mainnet_failure_aborts_the_update() {
    let mut source = ChainSource::new_bitcoind(Network::Bitcoin, NodeMetrics::new());
    let mut outcomes = all_rated(1000);
    outcomes[3].1 = FeeEstimateOutcome::Failed;
    let res = source.update_fee_rate_estimates_bitcoind(&outcomes, Some(1));
    assert_eq!(res, Err(Error::FeerateEstimationUpdateFailed));
    assert_eq!(source.fee_estimator.fee_rate(ConfirmationTarget::OnchainPayment), None);
}

#[test]
fn bitcoind_timeout_aborts_the_update() {
    let mut source = ChainSource::new_bitcoind(Network::Regtest, NodeMetrics::new());
    let mut outcomes = all_rated(1000);
    outcomes[0].1 = FeeEstimateOutcome::TimedOut;
    let res = source.update_fee_rate_estimates_bitcoind(&outcomes, Some(1));
    assert_eq!(res, Err(Error::FeerateEstimationUpdateTimeout));
}

#[test]
fn bitcoind_estimation_mode_per_target() {
    assert_eq!(
        bitcoind_estimation_request(ConfirmationTarget::Lightning(
            LdkConfirmationTarget::MinAllowedAnchorChannelRemoteFee
        )),
        BitcoindEstimateRequest::MempoolMinimum
    );
    assert_eq!(
        bitcoind_estimation_request(ConfirmationTarget::Lightning(
            LdkConfirmationTarget::MaximumFeeEstimate
        )),
        BitcoindEstimateRequest::Blocks { num_blocks: 1, mode: FeeRateEstimationMode::Conservative }
    );
    assert_eq!(
        bitcoind_estimation_request(ConfirmationTarget::Lightning(
            LdkConfirmationTarget::UrgentOnChainSweep
        )),
        BitcoindEstimateRequest::Blocks { num_blocks: 6, mode: FeeRateEstimationMode::Conservative }
    );
    assert_eq!(
        bitcoind_estimation_request(ConfirmationTarget::OnchainPayment),
        BitcoindEstimateRequest::Blocks { num_blocks: 6, mode: FeeRateEstimationMode::Economical }
    );
    assert_eq!(get_num_block_defaults_for_target(ConfirmationTarget::ChannelFunding), 12);
}
