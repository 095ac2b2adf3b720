use vstd::prelude::*;

verus! {

/// The error taxonomy surfaced to callers of the chain-source layer.
///
/// Every work item maps whatever its backend produced to exactly one of
/// these variants before publishing the outcome to subscribers.
#[derive(Clone, Copy, Debug, PartialEq, Eq, Structural)]
pub enum Error {
    /// A wallet sync produced a usable backend error (HTTP, Esplora-level,
    /// Electrum-level, or a failure to apply the fetched update).
    WalletOperationFailed,
    /// A wallet sync exceeded its time budget.
    WalletOperationTimeout,
    /// Chain polling, mempool polling, or transaction-index sync failed.
    TxSyncFailed,
    /// The Lightning wallet sync exceeded its time budget.
    TxSyncTimeout,
    /// A fee-rate estimation update failed; this includes empty estimates on
    /// Mainnet and an Electrum backend that was never started.
    FeerateEstimationUpdateFailed,
    /// A fee-rate estimation update exceeded its time budget.
    FeerateEstimationUpdateTimeout,
    /// Persisting the node-metrics record failed after a successful work item.
    PersistenceFailed,
}

} // verus!
