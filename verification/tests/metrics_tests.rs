use chain_source::metrics::{
    periodically_archive_fully_resolved_monitors, NodeMetrics,
    RESOLVED_CHANNEL_MONITOR_ARCHIVAL_INTERVAL,
};

#[test]
fn first_archival_happens_at_any_height() {
    let mut metrics = NodeMetrics::new();
    assert!(periodically_archive_fully_resolved_monitors(&mut metrics, 100));
    assert_eq!(metrics.latest_channel_monitor_archival_height, Some(100));
}

#[test]
fn archival_waits_for_the_full_interval() {
    let mut metrics = NodeMetrics::new();
    assert!(periodically_archive_fully_resolved_monitors(&mut metrics, 100));

    let just_before = 100 + RESOLVED_CHANNEL_MONITOR_ARCHIVAL_INTERVAL - 1;
    assert!(!periodically_archive_fully_resolved_monitors(&mut metrics, just_before));
    assert_eq!(metrics.latest_channel_monitor_archival_height, Some(100));

    let due = 100 + RESOLVED_CHANNEL_MONITOR_ARCHIVAL_INTERVAL;
    assert!(periodically_archive_fully_resolved_monitors(&mut metrics, due));
    assert_eq!(metrics.latest_channel_monitor_archival_height, Some(due));
}

#[test]
fn archival_decision_leaves_timestamps_alone() {
    let mut metrics = NodeMetrics::new();
    metrics.record_onchain_wallet_sync(Some(7));
    metrics.record_lightning_wallet_sync(Some(8));
    metrics.record_fee_rate_cache_update(Some(9));
    periodically_archive_fully_resolved_monitors(&mut metrics, 50);
    assert_eq!(metrics.latest_onchain_wallet_sync_timestamp, Some(7));
    assert_eq!(metrics.latest_lightning_wallet_sync_timestamp, Some(8));
    assert_eq!(metrics.latest_fee_rate_cache_update_timestamp, Some(9));
}

#[test]
fn timestamps_are_non_decreasing_across_successful_updates() {
    let mut metrics = NodeMetrics::new();
    metrics.record_onchain_wallet_sync(Some(10));
    let first = metrics.latest_onchain_wallet_sync_timestamp.unwrap();
    metrics.record_onchain_wallet_sync(Some(25));
    let second = metrics.latest_onchain_wallet_sync_timestamp.unwrap();
    assert!(first <= second);
    assert_eq!((first, second), (10, 25));
}

#[test]
fn polling_success_stamps_both_wallets() {
    let mut metrics = NodeMetrics::new();
    metrics.record_wallet_polling_sync(Some(33));
    assert_eq!(metrics.latest_onchain_wallet_sync_timestamp, Some(33));
    assert_eq!(metrics.latest_lightning_wallet_sync_timestamp, Some(33));
    assert_eq!(metrics.latest_fee_rate_cache_update_timestamp, None);
}
