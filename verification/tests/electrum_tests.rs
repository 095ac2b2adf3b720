use bitcoin::{ScriptBuf, Txid};
use lightning::chain::transaction::OutPoint;
use lightning::chain::WatchedOutput;

use chain_source::chain_source::{ChainSource, FilterAction};
use chain_source::electrum::ElectrumRuntimeStatus;
use chain_source::fee_estimator::Network;
use chain_source::metrics::NodeMetrics;

fn p2pkh_script(fill: u8) -> ScriptBuf {
    // OP_DUP OP_HASH160 <20 bytes> OP_EQUALVERIFY OP_CHECKSIG
    let mut bytes = vec![0x76u8, 0xa9, 0x14];
    bytes.extend_from_slice(&[fill; 20]);
    bytes.push(0x88);
    bytes.push(0xac);
    ScriptBuf::from_bytes(bytes)
}

#[test]
fn registrations_queue_while_stopped_and_replay_in_order() {
    let mut status = ElectrumRuntimeStatus::new();
    let txid = <Txid as bitcoin::hashes::Hash>::from_byte_array([0x11; 32]);
    let script = p2pkh_script(0xaa);
    let outpoint_txid = <Txid as bitcoin::hashes::Hash>::from_byte_array([0x22; 32]);
    let output = WatchedOutput {
        block_hash: None,
        outpoint: OutPoint { txid: outpoint_txid, index: 0 },
        script_pubkey: p2pkh_script(0xbb),
    };

    assert!(!status.register_tx(txid, script.clone()));
    assert!(!status.register_output(output.clone()));

    let batch = status.start().expect("a stopped status yields a replay batch");
    assert_eq!(batch.txs.len(), 1);
    assert_eq!(batch.txs[0].0, txid);
    assert_eq!(batch.txs[0].1, script);
    assert_eq!(batch.outputs.len(), 1);
    assert!(batch.outputs[0] == output);

    // Once started, registrations are forwarded, not queued.
    assert!(status.register_tx(txid, script));
    assert!(status.is_started());
}

#[test]
fn transactions_replay_before_outputs_whatever_the_arrival_order() {
    let mut status = ElectrumRuntimeStatus::new();
    let out_first = WatchedOutput {
        block_hash: None,
        outpoint: OutPoint { txid: <Txid as bitcoin::hashes::Hash>::from_byte_array([0x01; 32]), index: 7 },
        script_pubkey: p2pkh_script(0x01),
    };
    let txid_a = <Txid as bitcoin::hashes::Hash>::from_byte_array([0x02; 32]);
    let txid_b = <Txid as bitcoin::hashes::Hash>::from_byte_array([0x03; 32]);

    status.register_output(out_first.clone());
    status.register_tx(txid_a, p2pkh_script(0x02));
    status.register_tx(txid_b, p2pkh_script(0x03));

    let batch = status.start().unwrap();
    assert_eq!(batch.txs[0].0, txid_a);
    assert_eq!(batch.txs[1].0, txid_b);
    assert!(batch.outputs == vec![out_first]);
}

#[test]
fn starting_twice_changes_nothing() {
    let mut status = ElectrumRuntimeStatus::new();
    assert!(status.start().is_some());
    assert!(status.start().is_none());
    assert!(status.is_started());
}

#[test]
fn stop_resets_to_empty_queues() {
    let mut status = ElectrumRuntimeStatus::new();
    status.register_tx(<Txid as bitcoin::hashes::Hash>::from_byte_array([0x44; 32]), p2pkh_script(0x44));
    status.stop();
    let batch = status.start().unwrap();
    assert!(batch.txs.is_empty());
    assert!(batch.outputs.is_empty());
}

#[test]
fn register_before_start_through_the_chain_source() {
    let mut source = ChainSource::new_electrum(Network::Signet, NodeMetrics::new());
    let txid = <Txid as bitcoin::hashes::Hash>::from_byte_array([0x11; 32]);
    let script = p2pkh_script(0xcc);
    let output = WatchedOutput {
        block_hash: None,
        outpoint: OutPoint { txid: <Txid as bitcoin::hashes::Hash>::from_byte_array([0x22; 32]), index: 0 },
        script_pubkey: p2pkh_script(0xdd),
    };

    assert_eq!(source.register_tx(txid, script.clone()), FilterAction::QueuedUntilStart);
    assert_eq!(source.register_output(output.clone()), FilterAction::QueuedUntilStart);

    let batch = source.start().expect("the first start drains the queues");
    assert_eq!(batch.txs, vec![(txid, script.clone())]);
    assert!(batch.outputs == vec![output]);

    assert_eq!(source.register_tx(txid, script), FilterAction::ForwardToElectrum);
}

#[test]
fn filter_routing_per_backend() {
    let txid = <Txid as bitcoin::hashes::Hash>::from_byte_array([0x55; 32]);
    let mut esplora = ChainSource::new_esplora(Network::Bitcoin, NodeMetrics::new());
    assert_eq!(
        esplora.register_tx(txid, p2pkh_script(0x55)),
        FilterAction::ForwardToTxSync
    );

    let mut bitcoind = ChainSource::new_bitcoind(Network::Bitcoin, NodeMetrics::new());
    assert_eq!(bitcoind.register_tx(txid, p2pkh_script(0x55)), FilterAction::Ignored);
}
