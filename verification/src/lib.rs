//! Core logic of a Lightning node's chain-source layer: the state machines and
//! decision rules that keep an on-chain wallet and a Lightning wallet in sync
//! with one of three mutually exclusive chain backends (Esplora, Electrum, or a
//! Bitcoin Core node), supply fee-rate estimates, and drive the broadcast queue.
//!
//! The backends themselves are reached over the network by the embedding node;
//! this crate holds the verified core: given the observed outcome of each
//! backend call, it decides the next state and the next action.

pub mod bitcoind_sync;
pub mod broadcaster;
pub mod chain_source;
pub mod config;
pub mod electrum;
pub mod error;
pub mod fee_estimator;
pub mod header_cache;
pub mod metrics;
pub mod sync_status;
pub mod ticker;
pub mod types;

pub use error::Error;
