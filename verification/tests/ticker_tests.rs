use chain_source::config::{sync_loop_intervals, BackgroundSyncConfig};
use chain_source::ticker::SkipTicker;

#[test]
fn the_first_tick_fires_immediately() {
    let mut ticker = SkipTicker::new(10, 0);
    assert!(ticker.poll(0));
    assert!(!ticker.poll(0));
    assert!(!ticker.poll(9));
    assert!(ticker.poll(10));
}

#[test]
fn a_reset_ticker_skips_its_first_tick() {
    let mut ticker = SkipTicker::new(10, 0);
    ticker.reset(0);
    assert!(!ticker.poll(0));
    assert!(!ticker.poll(9));
    assert!(ticker.poll(10));
}

#[test]
fn a_stall_collapses_missed_ticks_into_one() {
    let mut ticker = SkipTicker::new(10, 0);
    assert!(ticker.poll(0));
    // The work item stalls for 3.5 periods; exactly one tick fires when
    // polling resumes, and the deadline lands on the next grid point.
    assert!(ticker.poll(35));
    assert!(!ticker.poll(35));
    assert!(!ticker.poll(39));
    assert!(ticker.poll(40));
}

#[test]
fn configured_intervals_are_clamped_to_the_minimum() {
    let config = BackgroundSyncConfig {
        onchain_wallet_sync_interval_secs: 5,
        lightning_wallet_sync_interval_secs: 30,
        fee_rate_cache_update_interval_secs: 1,
    };
    let (onchain, lightning, fee_rate) = sync_loop_intervals(&config);
    assert_eq!((onchain, lightning, fee_rate), (10, 30, 10));
}
