use vstd::prelude::*;

use crate::electrum::{ElectrumRuntimeStatus, ReplayBatch};
use crate::error::Error;
use crate::fee_estimator::{
    all_conf_targets, bitcoind_cache_spec, build_bitcoind_fee_rate_cache,
    build_esplora_fee_rate_cache, distinct_estimate_targets, esplora_rate_ok, BitcoindCacheBuild,
    ConfirmationTarget, FeeEstimateOutcome, Network, OnchainFeeEstimator,
};
use crate::metrics::NodeMetrics;
use crate::sync_status::WalletSyncStatus;
use crate::types::BestBlock;

verus! {

/// Which of the three mutually exclusive backends a chain source speaks to.
#[derive(Clone, Copy, Debug, PartialEq, Eq, Structural)]
pub enum ChainSourceKind {
    /// A block-explorer HTTP API.
    Esplora,
    /// An Electrum server.
    Electrum,
    /// A Bitcoin Core node over RPC or REST.
    Bitcoind,
}

/// The per-backend state of a chain source. The variant is fixed at
/// construction and never changes.
pub enum BackendState {
    /// Esplora: the two transaction-based work kinds each keep their own
    /// single-flight lock.
    Esplora {
        /// Lock of the on-chain wallet sync.
        onchain_wallet_sync_status: WalletSyncStatus,
        /// Lock of the Lightning wallet sync.
        lightning_wallet_sync_status: WalletSyncStatus,
    },
    /// Electrum: like Esplora, plus the deferred-start client state with its
    /// pending registration queues.
    Electrum {
        /// The deferred-start client state.
        electrum_runtime_status: ElectrumRuntimeStatus,
        /// Lock of the on-chain wallet sync.
        onchain_wallet_sync_status: WalletSyncStatus,
        /// Lock of the Lightning wallet sync.
        lightning_wallet_sync_status: WalletSyncStatus,
    },
    /// Bitcoin Core: both wallets sync through one polling loop, guarded
    /// together; the poller tracks the validated chain tip.
    Bitcoind {
        /// The tip the poller last validated, if any.
        latest_chain_tip: Option<BestBlock>,
        /// Lock of the combined wallet-polling work.
        wallet_polling_status: WalletSyncStatus,
    },
}

/// The verified core of the chain-source layer: the backend-specific state,
/// the configured network, the fee estimator's cache and the node-metrics
/// record. The embedding node owns the network clients, locks, and timers
/// around it; every decision the layer takes is a method of this type.
pub struct ChainSource {
    /// The per-backend state.
    pub backend: BackendState,
    /// The network the node is configured for.
    pub network: Network,
    /// The shared fee estimator.
    pub fee_estimator: OnchainFeeEstimator,
    /// The shared node-metrics record.
    pub node_metrics: NodeMetrics,
}

impl ChainSource {
    /// Which backend this chain source speaks to.
    pub open spec fn kind(self) -> ChainSourceKind {
        match self.backend {
            BackendState::Esplora { .. } => ChainSourceKind::Esplora,
            BackendState::Electrum { .. } => ChainSourceKind::Electrum,
            BackendState::Bitcoind { .. } => ChainSourceKind::Bitcoind,
        }
    }

    /// The on-chain wallet sync lock (transaction-based backends only).
    pub open spec fn onchain_status(self) -> WalletSyncStatus {
        match self.backend {
            BackendState::Esplora { onchain_wallet_sync_status, .. } => {
                onchain_wallet_sync_status
            },
            BackendState::Electrum { onchain_wallet_sync_status, .. } => {
                onchain_wallet_sync_status
            },
            BackendState::Bitcoind { .. } => WalletSyncStatus::Completed,
        }
    }

    /// The Lightning wallet sync lock (transaction-based backends only).
    pub open spec fn lightning_status(self) -> WalletSyncStatus {
        match self.backend {
            BackendState::Esplora { lightning_wallet_sync_status, .. } => {
                lightning_wallet_sync_status
            },
            BackendState::Electrum { lightning_wallet_sync_status, .. } => {
                lightning_wallet_sync_status
            },
            BackendState::Bitcoind { .. } => WalletSyncStatus::Completed,
        }
    }

    /// The combined wallet-polling lock (Bitcoind only).
    pub open spec fn polling_status(self) -> WalletSyncStatus {
        match self.backend {
            BackendState::Bitcoind { wallet_polling_status, .. } => wallet_polling_status,
            _ => WalletSyncStatus::Completed,
        }
    }

    /// Whether the Electrum client has been started.
    pub open spec fn electrum_started(self) -> bool {
        match self.backend {
            BackendState::Electrum { electrum_runtime_status, .. } => {
                electrum_runtime_status is Started
            },
            _ => false,
        }
    }

    /// The transaction registrations queued while Electrum is stopped.
    pub open spec fn electrum_pending_txs(self) -> Seq<(bitcoin::Txid, bitcoin::ScriptBuf)> {
        match self.backend {
            BackendState::Electrum { electrum_runtime_status, .. } => {
                electrum_runtime_status.pending_txs()
            },
            _ => Seq::empty(),
        }
    }

    /// The output registrations queued while Electrum is stopped.
    pub open spec fn electrum_pending_outputs(self) -> Seq<lightning::chain::WatchedOutput> {
        match self.backend {
            BackendState::Electrum { electrum_runtime_status, .. } => {
                electrum_runtime_status.pending_outputs()
            },
            _ => Seq::empty(),
        }
    }

    /// The tip the Bitcoind poller last validated.
    pub open spec fn chain_tip(self) -> Option<BestBlock> {
        match self.backend {
            BackendState::Bitcoind { latest_chain_tip, .. } => latest_chain_tip,
            _ => None,
        }
    }
}

/// The network, fee-estimator cache and node metrics are untouched.
pub open spec fn same_shared_state(pre: ChainSource, post: ChainSource) -> bool {
    &&& post.network == pre.network
    &&& post.fee_estimator@ == pre.fee_estimator@
    &&& post.node_metrics == pre.node_metrics
}

/// The backend state is untouched except possibly the on-chain sync lock.
pub open spec fn same_backend_but_onchain_status(pre: ChainSource, post: ChainSource) -> bool {
    &&& post.kind() == pre.kind()
    &&& post.lightning_status() == pre.lightning_status()
    &&& post.polling_status() == pre.polling_status()
    &&& post.electrum_started() == pre.electrum_started()
    &&& post.electrum_pending_txs() == pre.electrum_pending_txs()
    &&& post.electrum_pending_outputs() == pre.electrum_pending_outputs()
    &&& post.chain_tip() == pre.chain_tip()
}

/// The backend state is untouched except possibly the Lightning sync lock.
pub open spec fn same_backend_but_lightning_status(pre: ChainSource, post: ChainSource) -> bool {
    &&& post.kind() == pre.kind()
    &&& post.onchain_status() == pre.onchain_status()
    &&& post.polling_status() == pre.polling_status()
    &&& post.electrum_started() == pre.electrum_started()
    &&& post.electrum_pending_txs() == pre.electrum_pending_txs()
    &&& post.electrum_pending_outputs() == pre.electrum_pending_outputs()
    &&& post.chain_tip() == pre.chain_tip()
}

/// The backend state is untouched except possibly the polling lock.
pub open spec fn same_backend_but_polling_status(pre: ChainSource, post: ChainSource) -> bool {
    &&& post.kind() == pre.kind()
    &&& post.onchain_status() == pre.onchain_status()
    &&& post.lightning_status() == pre.lightning_status()
    &&& post.electrum_started() == pre.electrum_started()
    &&& post.electrum_pending_txs() == pre.electrum_pending_txs()
    &&& post.electrum_pending_outputs() == pre.electrum_pending_outputs()
    &&& post.chain_tip() == pre.chain_tip()
}

/// The backend state is untouched except possibly the validated chain tip.
pub open spec fn same_backend_but_chain_tip(pre: ChainSource, post: ChainSource) -> bool {
    &&& post.kind() == pre.kind()
    &&& post.onchain_status() == pre.onchain_status()
    &&& post.lightning_status() == pre.lightning_status()
    &&& post.polling_status() == pre.polling_status()
    &&& post.electrum_started() == pre.electrum_started()
    &&& post.electrum_pending_txs() == pre.electrum_pending_txs()
    &&& post.electrum_pending_outputs() == pre.electrum_pending_outputs()
}

impl ChainSource {
    /// Which backend this chain source speaks to.
    pub fn backend_kind(&self) -> (r: ChainSourceKind)
        ensures
            r == self.kind(),
    {
        match &self.backend {
            BackendState::Esplora { .. } => ChainSourceKind::Esplora,
            BackendState::Electrum { .. } => ChainSourceKind::Electrum,
            BackendState::Bitcoind { .. } => ChainSourceKind::Bitcoind,
        }
    }

    /// A chain source speaking to an Esplora server, with the node's restored
    /// metrics record.
    pub fn new_esplora(network: Network, node_metrics: NodeMetrics) -> (r: Self)
        ensures
            r.kind() == ChainSourceKind::Esplora,
            r.network == network,
            r.node_metrics == node_metrics,
            r.onchain_status() is Completed,
            r.lightning_status() is Completed,
            r.fee_estimator@ == Seq::<
                (crate::fee_estimator::ConfirmationTarget, u64),
            >::empty(),
    {
        ChainSource {
            backend: BackendState::Esplora {
                onchain_wallet_sync_status: WalletSyncStatus::Completed,
                lightning_wallet_sync_status: WalletSyncStatus::Completed,
            },
            network,
            fee_estimator: OnchainFeeEstimator::new(),
            node_metrics,
        }
    }

    /// A chain source speaking to an Electrum server; the client starts later,
    /// so registrations queue until then.
    pub fn new_electrum(network: Network, node_metrics: NodeMetrics) -> (r: Self)
        ensures
            r.kind() == ChainSourceKind::Electrum,
            r.network == network,
            r.node_metrics == node_metrics,
            r.onchain_status() is Completed,
            r.lightning_status() is Completed,
            !r.electrum_started(),
            r.electrum_pending_txs() == Seq::<(bitcoin::Txid, bitcoin::ScriptBuf)>::empty(),
            r.electrum_pending_outputs() == Seq::<lightning::chain::WatchedOutput>::empty(),
            r.fee_estimator@ == Seq::<
                (crate::fee_estimator::ConfirmationTarget, u64),
            >::empty(),
    {
        ChainSource {
            backend: BackendState::Electrum {
                electrum_runtime_status: ElectrumRuntimeStatus::new(),
                onchain_wallet_sync_status: WalletSyncStatus::Completed,
                lightning_wallet_sync_status: WalletSyncStatus::Completed,
            },
            network,
            fee_estimator: OnchainFeeEstimator::new(),
            node_metrics,
        }
    }

    /// A chain source speaking to a Bitcoin Core node (over RPC or REST; the
    /// embedding node owns the client either way).
    pub fn new_bitcoind(network: Network, node_metrics: NodeMetrics) -> (r: Self)
        ensures
            r.kind() == ChainSourceKind::Bitcoind,
            r.network == network,
            r.node_metrics == node_metrics,
            r.polling_status() is Completed,
            r.chain_tip() is None,
            r.fee_estimator@ == Seq::<
                (crate::fee_estimator::ConfirmationTarget, u64),
            >::empty(),
    {
        ChainSource {
            backend: BackendState::Bitcoind {
                latest_chain_tip: None,
                wallet_polling_status: WalletSyncStatus::Completed,
            },
            network,
            fee_estimator: OnchainFeeEstimator::new(),
            node_metrics,
        }
    }

    /// Starts the chain source. For Electrum this marks the client started
    /// and hands back the registrations to replay on it, in insertion order,
    /// transactions before outputs; the other backends have nothing to do.
    pub fn start(&mut self) -> (r: Option<ReplayBatch>)
        ensures
            same_shared_state(*old(self), *final(self)),
            old(self).kind() != ChainSourceKind::Electrum ==> *final(self) == *old(self) && r
                is None,
            old(self).kind() == ChainSourceKind::Electrum ==> {
                &&& final(self).electrum_started()
                &&& final(self).kind() == ChainSourceKind::Electrum
                &&& final(self).onchain_status() == old(self).onchain_status()
                &&& final(self).lightning_status() == old(self).lightning_status()
                &&& final(self).polling_status() == old(self).polling_status()
                &&& final(self).chain_tip() == old(self).chain_tip()
                &&& final(self).electrum_pending_txs() == Seq::<
                    (bitcoin::Txid, bitcoin::ScriptBuf),
                >::empty()
                &&& final(self).electrum_pending_outputs() == Seq::<
                    lightning::chain::WatchedOutput,
                >::empty()
            },
            old(self).kind() == ChainSourceKind::Electrum && !old(self).electrum_started() ==> (r
                matches Some(batch) && batch.txs@ == old(self).electrum_pending_txs()
                && batch.outputs@ == old(self).electrum_pending_outputs()),
            old(self).kind() == ChainSourceKind::Electrum && old(self).electrum_started() ==> r
                is None,
    {
        match &mut self.backend {
            BackendState::Electrum { electrum_runtime_status, .. } => {
                electrum_runtime_status.start()
            },
            _ => None,
        }
    }

    /// Stops the chain source. For Electrum this drops back to a fresh
    /// stopped state with empty queues (the embedding node drops its client);
    /// the other backends have nothing to do.
    pub fn stop(&mut self)
        ensures
            same_shared_state(*old(self), *final(self)),
            old(self).kind() != ChainSourceKind::Electrum ==> *final(self) == *old(self),
            old(self).kind() == ChainSourceKind::Electrum ==> {
                &&& final(self).kind() == ChainSourceKind::Electrum
                &&& !final(self).electrum_started()
                &&& final(self).electrum_pending_txs() == Seq::<
                    (bitcoin::Txid, bitcoin::ScriptBuf),
                >::empty()
                &&& final(self).electrum_pending_outputs() == Seq::<
                    lightning::chain::WatchedOutput,
                >::empty()
                &&& final(self).onchain_status() == old(self).onchain_status()
                &&& final(self).lightning_status() == old(self).lightning_status()
                &&& final(self).polling_status() == old(self).polling_status()
                &&& final(self).chain_tip() == old(self).chain_tip()
            },
    {
        match &mut self.backend {
            BackendState::Electrum { electrum_runtime_status, .. } => {
                electrum_runtime_status.stop()
            },
            _ => {},
        }
    }
}

/// Where a filter registration is routed.
#[derive(Clone, Copy, Debug, PartialEq, Eq, Structural)]
pub enum FilterAction {
    /// Forward to the Esplora transaction-sync client.
    ForwardToTxSync,
    /// Forward to the live Electrum client.
    ForwardToElectrum,
    /// Queued until the Electrum client starts.
    QueuedUntilStart,
    /// Nothing to do: the Bitcoind poller visits every block anyway.
    Ignored,
}

impl ChainSource {
    /// Accepts a transaction registration and decides where it goes: to the
    /// Esplora transaction-sync client, to the live Electrum client, into the
    /// Electrum pending queue, or nowhere (Bitcoind).
    pub fn register_tx(&mut self, txid: bitcoin::Txid, script_pubkey: bitcoin::ScriptBuf) -> (action:
        FilterAction)
        ensures
            same_shared_state(*old(self), *final(self)),
            old(self).kind() == ChainSourceKind::Esplora ==> action == FilterAction::ForwardToTxSync
                && *final(self) == *old(self),
            old(self).kind() == ChainSourceKind::Bitcoind ==> action == FilterAction::Ignored
                && *final(self) == *old(self),
            old(self).kind() == ChainSourceKind::Electrum && old(self).electrum_started()
                ==> action == FilterAction::ForwardToElectrum && *final(self) == *old(self),
            old(self).kind() == ChainSourceKind::Electrum && !old(self).electrum_started() ==> {
                &&& action == FilterAction::QueuedUntilStart
                &&& final(self).kind() == old(self).kind()
                &&& final(self).onchain_status() == old(self).onchain_status()
                &&& final(self).lightning_status() == old(self).lightning_status()
                &&& final(self).polling_status() == old(self).polling_status()
                &&& !final(self).electrum_started()
                &&& final(self).chain_tip() == old(self).chain_tip()
                &&& final(self).electrum_pending_txs() == old(self).electrum_pending_txs().push(
                    (txid, script_pubkey),
                )
                &&& final(self).electrum_pending_outputs() == old(self).electrum_pending_outputs()
            },
    {
        match &mut self.backend {
            BackendState::Esplora { .. } => FilterAction::ForwardToTxSync,
            BackendState::Electrum { electrum_runtime_status, .. } => {
                if electrum_runtime_status.register_tx(txid, script_pubkey) {
                    FilterAction::ForwardToElectrum
                } else {
                    FilterAction::QueuedUntilStart
                }
            },
            BackendState::Bitcoind { .. } => FilterAction::Ignored,
        }
    }

    /// Accepts an output registration and decides where it goes, as
    /// [`ChainSource::register_tx`] does for transactions.
    pub fn register_output(&mut self, output: lightning::chain::WatchedOutput) -> (action:
        FilterAction)
        ensures
            same_shared_state(*old(self), *final(self)),
            old(self).kind() == ChainSourceKind::Esplora ==> action == FilterAction::ForwardToTxSync
                && *final(self) == *old(self),
            old(self).kind() == ChainSourceKind::Bitcoind ==> action == FilterAction::Ignored
                && *final(self) == *old(self),
            old(self).kind() == ChainSourceKind::Electrum && old(self).electrum_started()
                ==> action == FilterAction::ForwardToElectrum && *final(self) == *old(self),
            old(self).kind() == ChainSourceKind::Electrum && !old(self).electrum_started() ==> {
                &&& action == FilterAction::QueuedUntilStart
                &&& final(self).kind() == old(self).kind()
                &&& final(self).onchain_status() == old(self).onchain_status()
                &&& final(self).lightning_status() == old(self).lightning_status()
                &&& final(self).polling_status() == old(self).polling_status()
                &&& !final(self).electrum_started()
                &&& final(self).chain_tip() == old(self).chain_tip()
                &&& final(self).electrum_pending_txs() == old(self).electrum_pending_txs()
                &&& final(self).electrum_pending_outputs() == old(
                    self,
                ).electrum_pending_outputs().push(output)
            },
    {
        match &mut self.backend {
            BackendState::Esplora { .. } => FilterAction::ForwardToTxSync,
            BackendState::Electrum { electrum_runtime_status, .. } => {
                if electrum_runtime_status.register_output(output) {
                    FilterAction::ForwardToElectrum
                } else {
                    FilterAction::QueuedUntilStart
                }
            },
            BackendState::Bitcoind { .. } => FilterAction::Ignored,
        }
    }
}

/// How one transaction-based on-chain wallet sync begins: whether this caller
/// owns the work or subscribes, and which mode the sync runs in.
pub struct OnchainSyncStart {
    /// `None`: the caller owns the sync. `Some(t)`: subscriber ticket `t`.
    pub subscriber: Option<u64>,
    /// Incremental sync (a previous sync succeeded) or initial full scan.
    pub incremental: bool,
}

/// What fetching and applying the on-chain wallet update came to.
#[derive(Clone, Copy, Debug, PartialEq, Eq, Structural)]
pub enum WalletUpdateOutcome {
    /// The update was fetched and applied to the wallet.
    Applied,
    /// The update was fetched but the wallet rejected it with this error.
    ApplyFailed(Error),
    /// The backend reported this already-mapped error (Electrum).
    FetchFailed(Error),
    /// Fetching failed with an HTTP connection error (Esplora).
    HttpError,
    /// Fetching failed with another Esplora-level error.
    EsploraError,
    /// Fetching exceeded the wallet-sync time budget.
    TimedOut,
}

/// The result an on-chain wallet sync publishes for each outcome.
pub open spec fn onchain_sync_result(o: WalletUpdateOutcome) -> Result<(), Error> {
    match o {
        WalletUpdateOutcome::Applied => Ok(()),
        WalletUpdateOutcome::ApplyFailed(e) => Err(e),
        WalletUpdateOutcome::FetchFailed(e) => Err(e),
        WalletUpdateOutcome::HttpError => Err(Error::WalletOperationFailed),
        WalletUpdateOutcome::EsploraError => Err(Error::WalletOperationFailed),
        WalletUpdateOutcome::TimedOut => Err(Error::WalletOperationTimeout),
    }
}

/// What one Lightning wallet (transaction-index) sync came to.
#[derive(Clone, Copy, Debug, PartialEq, Eq, Structural)]
pub enum LightningSyncOutcome {
    /// Every Confirm-capable listener was synced.
    Synced,
    /// The sync failed with this already-mapped error.
    Failed(Error),
    /// The sync exceeded its time budget.
    TimedOut,
}

/// The result a Lightning wallet sync publishes for each outcome.
pub open spec fn lightning_sync_result(o: LightningSyncOutcome) -> Result<(), Error> {
    match o {
        LightningSyncOutcome::Synced => Ok(()),
        LightningSyncOutcome::Failed(e) => Err(e),
        LightningSyncOutcome::TimedOut => Err(Error::TxSyncTimeout),
    }
}

/// A work item's result once the node-metrics write is in: a failure of the
/// work wins; a successful work item surfaces the persistence outcome.
pub open spec fn result_after_persist(
    pending: Result<(), Error>,
    persist: Result<(), Error>,
) -> Result<(), Error> {
    match pending {
        Ok(_) => persist,
        Err(e) => Err(e),
    }
}

/// Folds the persistence outcome into a work item's pending result.
pub fn combine_with_persist(pending: Result<(), Error>, persist: Result<(), Error>) -> (r: Result<
    (),
    Error,
>)
    ensures
        r == result_after_persist(pending, persist),
{
    match pending {
        Ok(_) => persist,
        Err(e) => Err(e),
    }
}

/// The result of persisting the node metrics, as the polling loop reports it.
pub fn persist_outcome_result(persist_ok: bool) -> (r: Result<(), Error>)
    ensures
        persist_ok ==> r == Ok::<(), Error>(()),
        !persist_ok ==> r == Err::<(), Error>(Error::PersistenceFailed),
{
    if persist_ok {
        Ok(())
    } else {
        Err(Error::PersistenceFailed)
    }
}

impl ChainSource {
    /// Begins an on-chain wallet sync (Esplora and Electrum): the first
    /// caller owns the work, later callers subscribe; the mode is incremental
    /// iff a previous sync recorded its timestamp.
    pub fn begin_onchain_wallet_sync(&mut self) -> (r: OnchainSyncStart)
        requires
            old(self).kind() != ChainSourceKind::Bitcoind,
            old(self).onchain_status().subscriber_count() < u64::MAX as nat,
        ensures
            r.incremental == (old(self).node_metrics.latest_onchain_wallet_sync_timestamp
                is Some),
            (final(self).onchain_status(), r.subscriber) == old(
                self,
            ).onchain_status().register_transition(),
            r.subscriber is None <==> old(self).onchain_status() is Completed,
            same_shared_state(*old(self), *final(self)),
            same_backend_but_onchain_status(*old(self), *final(self)),
    {
        let incremental = match self.node_metrics.latest_onchain_wallet_sync_timestamp {
            Some(_) => true,
            None => false,
        };
        let subscriber = match &mut self.backend {
            BackendState::Esplora { onchain_wallet_sync_status, .. } => {
                onchain_wallet_sync_status.register_or_subscribe_pending_sync()
            },
            BackendState::Electrum { onchain_wallet_sync_status, .. } => {
                onchain_wallet_sync_status.register_or_subscribe_pending_sync()
            },
            BackendState::Bitcoind { .. } => {
                proof {
                    assert(false);
                }
                None
            },
        };
        OnchainSyncStart { subscriber, incremental }
    }

    /// Maps what the backend and the wallet came to into the sync's result
    /// and, on success, records the sync in the metrics (the embedding node
    /// persists them next).
    pub fn record_onchain_sync_outcome(
        &mut self,
        outcome: WalletUpdateOutcome,
        now_opt: Option<u64>,
    ) -> (pending: Result<(), Error>)
        requires
            old(self).kind() != ChainSourceKind::Bitcoind,
        ensures
            pending == onchain_sync_result(outcome),
            pending is Ok ==> final(self).node_metrics == crate::metrics::onchain_sync_recorded(
                old(self).node_metrics,
                now_opt,
            ),
            pending is Err ==> final(self).node_metrics == old(self).node_metrics,
            final(self).backend == old(self).backend,
            final(self).network == old(self).network,
            final(self).fee_estimator@ == old(self).fee_estimator@,
    {
        let pending: Result<(), Error> = match outcome {
            WalletUpdateOutcome::Applied => Ok(()),
            WalletUpdateOutcome::ApplyFailed(e) => Err(e),
            WalletUpdateOutcome::FetchFailed(e) => Err(e),
            WalletUpdateOutcome::HttpError => Err(Error::WalletOperationFailed),
            WalletUpdateOutcome::EsploraError => Err(Error::WalletOperationFailed),
            WalletUpdateOutcome::TimedOut => Err(Error::WalletOperationTimeout),
        };
        if pending.is_ok() {
            self.node_metrics.record_onchain_wallet_sync(now_opt);
        }
        pending
    }

    /// Publishes the on-chain sync's result: every subscriber receives one
    /// copy of it and the lock resets.
    pub fn finish_onchain_wallet_sync(&mut self, res: Result<(), Error>) -> (deliveries: Vec<
        Result<(), Error>,
    >)
        requires
            old(self).kind() != ChainSourceKind::Bitcoind,
        ensures
            (final(self).onchain_status(), deliveries@) == old(
                self,
            ).onchain_status().propagate_transition(res),
            same_shared_state(*old(self), *final(self)),
            same_backend_but_onchain_status(*old(self), *final(self)),
    {
        match &mut self.backend {
            BackendState::Esplora { onchain_wallet_sync_status, .. } => {
                onchain_wallet_sync_status.propagate_result_to_subscribers(res)
            },
            BackendState::Electrum { onchain_wallet_sync_status, .. } => {
                onchain_wallet_sync_status.propagate_result_to_subscribers(res)
            },
            BackendState::Bitcoind { .. } => {
                proof {
                    assert(false);
                }
                Vec::new()
            },
        }
    }

    /// Begins a Lightning wallet sync (Esplora and Electrum): the first
    /// caller owns the work, later callers subscribe.
    pub fn begin_lightning_wallet_sync(&mut self) -> (r: Option<u64>)
        requires
            old(self).kind() != ChainSourceKind::Bitcoind,
            old(self).lightning_status().subscriber_count() < u64::MAX as nat,
        ensures
            (final(self).lightning_status(), r) == old(
                self,
            ).lightning_status().register_transition(),
            r is None <==> old(self).lightning_status() is Completed,
            same_shared_state(*old(self), *final(self)),
            same_backend_but_lightning_status(*old(self), *final(self)),
    {
        match &mut self.backend {
            BackendState::Esplora { lightning_wallet_sync_status, .. } => {
                lightning_wallet_sync_status.register_or_subscribe_pending_sync()
            },
            BackendState::Electrum { lightning_wallet_sync_status, .. } => {
                lightning_wallet_sync_status.register_or_subscribe_pending_sync()
            },
            BackendState::Bitcoind { .. } => {
                proof {
                    assert(false);
                }
                None
            },
        }
    }

    /// Maps the Lightning sync's outcome into its result and, on success,
    /// records the sync in the metrics. A successful sync is followed by the
    /// archival decision
    /// ([`crate::metrics::periodically_archive_fully_resolved_monitors`]) and
    /// by persisting the metrics; both fold into the published result.
    pub fn record_lightning_sync_outcome(
        &mut self,
        outcome: LightningSyncOutcome,
        now_opt: Option<u64>,
    ) -> (pending: Result<(), Error>)
        requires
            old(self).kind() != ChainSourceKind::Bitcoind,
        ensures
            pending == lightning_sync_result(outcome),
            pending is Ok ==> final(self).node_metrics == crate::metrics::lightning_sync_recorded(
                old(self).node_metrics,
                now_opt,
            ),
            pending is Err ==> final(self).node_metrics == old(self).node_metrics,
            final(self).backend == old(self).backend,
            final(self).network == old(self).network,
            final(self).fee_estimator@ == old(self).fee_estimator@,
    {
        let pending: Result<(), Error> = match outcome {
            LightningSyncOutcome::Synced => Ok(()),
            LightningSyncOutcome::Failed(e) => Err(e),
            LightningSyncOutcome::TimedOut => Err(Error::TxSyncTimeout),
        };
        if pending.is_ok() {
            self.node_metrics.record_lightning_wallet_sync(now_opt);
        }
        pending
    }

    /// Publishes the Lightning sync's result to its subscribers.
    pub fn finish_lightning_wallet_sync(&mut self, res: Result<(), Error>) -> (deliveries: Vec<
        Result<(), Error>,
    >)
        requires
            old(self).kind() != ChainSourceKind::Bitcoind,
        ensures
            (final(self).lightning_status(), deliveries@) == old(
                self,
            ).lightning_status().propagate_transition(res),
            same_shared_state(*old(self), *final(self)),
            same_backend_but_lightning_status(*old(self), *final(self)),
    {
        match &mut self.backend {
            BackendState::Esplora { lightning_wallet_sync_status, .. } => {
                lightning_wallet_sync_status.propagate_result_to_subscribers(res)
            },
            BackendState::Electrum { lightning_wallet_sync_status, .. } => {
                lightning_wallet_sync_status.propagate_result_to_subscribers(res)
            },
            BackendState::Bitcoind { .. } => {
                proof {
                    assert(false);
                }
                Vec::new()
            },
        }
    }
}

/// What the SPV poll of the chain tip came to.
#[derive(Clone, Copy, Debug)]
pub enum SpvPollOutcome {
    /// A strictly better tip was found and every listener connected to it.
    BetterAndConnected(BestBlock),
    /// The poll succeeded without a better, fully connected tip.
    OtherOk,
    /// The poll failed.
    Failed,
}

/// What polling the mempool and applying its transactions came to.
#[derive(Clone, Copy, Debug, PartialEq, Eq, Structural)]
pub enum MempoolSyncOutcome {
    /// Mempool entries were fetched and applied to the wallet.
    Applied,
    /// Mempool entries were fetched but applying them failed (logged only).
    ApplyFailed,
    /// Fetching the mempool entries failed.
    FetchFailed,
}

/// The result the polling tick takes from the mempool step: only a fetch
/// failure is fatal; an apply failure is logged and tolerated.
pub open spec fn mempool_sync_result(o: MempoolSyncOutcome) -> Result<(), Error> {
    match o {
        MempoolSyncOutcome::FetchFailed => Err(Error::TxSyncFailed),
        _ => Ok(()),
    }
}

/// Maps the mempool step's outcome into the polling tick's result.
pub fn record_mempool_sync(outcome: MempoolSyncOutcome) -> (r: Result<(), Error>)
    ensures
        r == mempool_sync_result(outcome),
{
    match outcome {
        MempoolSyncOutcome::FetchFailed => Err(Error::TxSyncFailed),
        _ => Ok(()),
    }
}

impl ChainSource {
    /// Begins one polling tick's work (Bitcoind): the first caller owns the
    /// work, later callers subscribe.
    pub fn begin_wallet_polling(&mut self) -> (r: Option<u64>)
        requires
            old(self).kind() == ChainSourceKind::Bitcoind,
            old(self).polling_status().subscriber_count() < u64::MAX as nat,
        ensures
            (final(self).polling_status(), r) == old(self).polling_status().register_transition(),
            r is None <==> old(self).polling_status() is Completed,
            same_shared_state(*old(self), *final(self)),
            same_backend_but_polling_status(*old(self), *final(self)),
    {
        match &mut self.backend {
            BackendState::Bitcoind { wallet_polling_status, .. } => {
                wallet_polling_status.register_or_subscribe_pending_sync()
            },
            _ => {
                proof {
                    assert(false);
                }
                None
            },
        }
    }

    /// The tip the poller last validated, if any.
    pub fn current_chain_tip(&self) -> (r: Option<BestBlock>)
        ensures
            r == self.chain_tip(),
    {
        match &self.backend {
            BackendState::Bitcoind { latest_chain_tip, .. } => *latest_chain_tip,
            _ => None,
        }
    }

    /// Settles which tip this polling tick works from: the stored one, or the
    /// freshly validated header when none is stored yet; with neither, the
    /// tick fails.
    pub fn ensure_chain_tip(&mut self, validated: Option<BestBlock>) -> (r: Result<
        BestBlock,
        Error,
    >)
        requires
            old(self).kind() == ChainSourceKind::Bitcoind,
        ensures
            old(self).chain_tip() matches Some(t) ==> (r == Ok::<BestBlock, Error>(t)
                && *final(self) == *old(self)),
            old(self).chain_tip() is None ==> (validated matches Some(t) ==> (r == Ok::<
                BestBlock,
                Error,
            >(t) && final(self).chain_tip() == Some(t) && same_shared_state(
                *old(self),
                *final(self),
            ) && same_backend_but_chain_tip(*old(self), *final(self)))),
            old(self).chain_tip() is None && validated is None ==> (r == Err::<BestBlock, Error>(
                Error::TxSyncFailed,
            ) && *final(self) == *old(self)),
    {
        match &mut self.backend {
            BackendState::Bitcoind { latest_chain_tip, .. } => match latest_chain_tip {
                Some(tip) => Ok(*tip),
                None => match validated {
                    Some(t) => {
                        *latest_chain_tip = Some(t);
                        Ok(t)
                    },
                    None => Err(Error::TxSyncFailed),
                },
            },
            _ => {
                proof {
                    assert(false);
                }
                Err(Error::TxSyncFailed)
            },
        }
    }

    /// Takes the SPV poll's outcome: a better, fully connected tip is stored;
    /// any other success changes nothing; a failure fails the tick.
    pub fn record_spv_poll(&mut self, outcome: SpvPollOutcome) -> (r: Result<(), Error>)
        requires
            old(self).kind() == ChainSourceKind::Bitcoind,
        ensures
            outcome matches SpvPollOutcome::BetterAndConnected(tip) ==> r == Ok::<(), Error>(())
                && final(self).chain_tip() == Some(tip) && same_shared_state(
                *old(self),
                *final(self),
            ) && same_backend_but_chain_tip(*old(self), *final(self)),
            outcome is OtherOk ==> r == Ok::<(), Error>(()) && *final(self) == *old(self),
            outcome is Failed ==> r == Err::<(), Error>(Error::TxSyncFailed) && *final(self)
                == *old(self),
    {
        match &mut self.backend {
            BackendState::Bitcoind { latest_chain_tip, .. } => match outcome {
                SpvPollOutcome::BetterAndConnected(tip) => {
                    *latest_chain_tip = Some(tip);
                    Ok(())
                },
                SpvPollOutcome::OtherOk => Ok(()),
                SpvPollOutcome::Failed => Err(Error::TxSyncFailed),
            },
            _ => {
                proof {
                    assert(false);
                }
                Err(Error::TxSyncFailed)
            },
        }
    }

    /// Records a fully successful polling tick: both wallets synced at this
    /// clock reading (the embedding node persists the metrics next).
    pub fn record_polling_success(&mut self, now_opt: Option<u64>)
        requires
            old(self).kind() == ChainSourceKind::Bitcoind,
        ensures
            final(self).node_metrics == crate::metrics::lightning_sync_recorded(
                crate::metrics::onchain_sync_recorded(old(self).node_metrics, now_opt),
                now_opt,
            ),
            final(self).backend == old(self).backend,
            final(self).network == old(self).network,
            final(self).fee_estimator@ == old(self).fee_estimator@,
    {
        self.node_metrics.record_wallet_polling_sync(now_opt);
    }

    /// Publishes the polling tick's result to its subscribers.
    pub fn finish_wallet_polling(&mut self, res: Result<(), Error>) -> (deliveries: Vec<
        Result<(), Error>,
    >)
        requires
            old(self).kind() == ChainSourceKind::Bitcoind,
        ensures
            (final(self).polling_status(), deliveries@) == old(
                self,
            ).polling_status().propagate_transition(res),
            same_shared_state(*old(self), *final(self)),
            same_backend_but_polling_status(*old(self), *final(self)),
    {
        match &mut self.backend {
            BackendState::Bitcoind { wallet_polling_status, .. } => {
                wallet_polling_status.propagate_result_to_subscribers(res)
            },
            _ => {
                proof {
                    assert(false);
                }
                Vec::new()
            },
        }
    }

    /// Claims the polling lock for the initial listener catch-up, before the
    /// polling loop may tick. At node start nothing else can hold the lock;
    /// the claim makes later manual sync calls wait for the catch-up result.
    pub fn begin_initial_catchup(&mut self)
        requires
            old(self).kind() == ChainSourceKind::Bitcoind,
            old(self).polling_status() is Completed,
        ensures
            final(self).polling_status() == (WalletSyncStatus::InProgress { subscribers: 0 }),
            same_shared_state(*old(self), *final(self)),
            same_backend_but_polling_status(*old(self), *final(self)),
    {
        match &mut self.backend {
            BackendState::Bitcoind { wallet_polling_status, .. } => {
                let _owner = wallet_polling_status.register_or_subscribe_pending_sync();
            },
            _ => {
                proof {
                    assert(false);
                }
            },
        }
    }

    /// Records a successful initial catch-up: the synchronized tip is stored
    /// and both wallets count as synced at this clock reading (the embedding
    /// node persists the metrics, then publishes `Ok` to the lock's
    /// subscribers, which lets the polling loop start).
    pub fn record_catchup_success(&mut self, tip: BestBlock, now_opt: Option<u64>)
        requires
            old(self).kind() == ChainSourceKind::Bitcoind,
        ensures
            final(self).chain_tip() == Some(tip),
            final(self).node_metrics == crate::metrics::lightning_sync_recorded(
                crate::metrics::onchain_sync_recorded(old(self).node_metrics, now_opt),
                now_opt,
            ),
            final(self).network == old(self).network,
            final(self).fee_estimator@ == old(self).fee_estimator@,
            same_backend_but_chain_tip(*old(self), *final(self)),
    {
        match &mut self.backend {
            BackendState::Bitcoind { latest_chain_tip, .. } => {
                *latest_chain_tip = Some(tip);
            },
            _ => {
                proof {
                    assert(false);
                }
            },
        }
        self.node_metrics.record_wallet_polling_sync(now_opt);
    }
}

/// The work kinds that need the live Electrum client.
#[derive(Clone, Copy, Debug, PartialEq, Eq, Structural)]
pub enum ElectrumWork {
    /// Syncing the on-chain wallet.
    OnchainWalletSync,
    /// Syncing the Lightning wallet.
    LightningWalletSync,
    /// Refreshing the fee-rate cache.
    FeeRateUpdate,
}

/// The error a work item surfaces when it finds the Electrum client has not
/// been started — a caller bug tolerated at runtime.
pub fn electrum_not_started_error(work: ElectrumWork) -> (e: Error)
    ensures
        work == ElectrumWork::OnchainWalletSync ==> e == Error::FeerateEstimationUpdateFailed,
        work == ElectrumWork::LightningWalletSync ==> e == Error::TxSyncFailed,
        work == ElectrumWork::FeeRateUpdate ==> e == Error::FeerateEstimationUpdateFailed,
{
    match work {
        ElectrumWork::OnchainWalletSync => Error::FeerateEstimationUpdateFailed,
        ElectrumWork::LightningWalletSync => Error::TxSyncFailed,
        ElectrumWork::FeeRateUpdate => Error::FeerateEstimationUpdateFailed,
    }
}

/// What fetching the raw Esplora estimate set came to: the per-block-target
/// rates in sat/kwu, or a failure, or a timeout.
pub enum FeeEstimatesFetch {
    /// The backend's estimates, one entry per block target, in sat/kwu.
    Fetched(Vec<(u16, u64)>),
    /// The fetch failed.
    FetchFailed,
    /// The fetch exceeded the fee-update time budget.
    TimedOut,
}

/// A fee-rate update went through against these two states: the update is
/// recorded in the metrics and nothing else of the chain source moved.
pub open spec fn fee_update_recorded(
    pre: ChainSource,
    post: ChainSource,
    now_opt: Option<u64>,
) -> bool {
    &&& post.node_metrics == crate::metrics::fee_rate_update_recorded(pre.node_metrics, now_opt)
    &&& post.backend == pre.backend
    &&& post.network == pre.network
}

/// `cache` is the Esplora fee-rate cache built from the estimate set `est`:
/// one entry per confirmation target, in order, each resolved as
/// [`esplora_rate_ok`] demands.
pub open spec fn is_esplora_cache(est: Seq<(u16, u64)>, cache: Seq<(ConfirmationTarget, u64)>) -> bool {
    &&& cache.len() == all_conf_targets().len()
    &&& forall|i: int|
        0 <= i < cache.len() ==> cache[i].0 == all_conf_targets()[i] && esplora_rate_ok(
            est,
            all_conf_targets()[i],
            cache[i].1,
        )
}

impl ChainSource {
    /// Refreshes the fee-rate cache from an Esplora estimate set: every
    /// confirmation target resolves to its best estimate (clamped to the
    /// 1 sat/vB floor), the cache is swapped atomically, and the update is
    /// recorded in the metrics (persisted next by the embedding node).
    /// Fail-closed on Mainnet: an empty estimate set aborts the update.
    pub fn update_fee_rate_estimates_esplora(
        &mut self,
        fetch: FeeEstimatesFetch,
        now_opt: Option<u64>,
    ) -> (r: Result<bool, Error>)
        requires
            old(self).kind() == ChainSourceKind::Esplora,
            fetch matches FeeEstimatesFetch::Fetched(est) ==> distinct_estimate_targets(est@),
        ensures
            fetch is TimedOut ==> r == Err::<bool, Error>(Error::FeerateEstimationUpdateTimeout)
                && *final(self) == *old(self),
            fetch is FetchFailed ==> r == Err::<bool, Error>(Error::FeerateEstimationUpdateFailed)
                && *final(self) == *old(self),
            fetch matches FeeEstimatesFetch::Fetched(est) ==> ((old(self).network
                == Network::Bitcoin && est@.len() == 0 ==> r == Err::<bool, Error>(
                Error::FeerateEstimationUpdateFailed,
            ) && *final(self) == *old(self)) && (!(old(self).network == Network::Bitcoin
                && est@.len() == 0) ==> (r matches Ok(changed) && is_esplora_cache(
                est@,
                final(self).fee_estimator@,
            ) && changed == (old(self).fee_estimator@ != final(self).fee_estimator@)
                && fee_update_recorded(*old(self), *final(self), now_opt)))),
    {
        match fetch {
            FeeEstimatesFetch::TimedOut => Err(Error::FeerateEstimationUpdateTimeout),
            FeeEstimatesFetch::FetchFailed => Err(Error::FeerateEstimationUpdateFailed),
            FeeEstimatesFetch::Fetched(est) => {
                match build_esplora_fee_rate_cache(self.network, &est) {
                    Err(e) => Err(e),
                    Ok(cache) => {
                        let changed = self.fee_estimator.set_fee_rate_cache(cache);
                        self.node_metrics.record_fee_rate_cache_update(now_opt);
                        Ok(changed)
                    },
                }
            },
        }
    }

    /// Refreshes the fee-rate cache from the Electrum client's bulk fetch,
    /// which hands back a ready cache or its own mapped error.
    pub fn update_fee_rate_estimates_electrum(
        &mut self,
        fetch: Result<Vec<(ConfirmationTarget, u64)>, Error>,
        now_opt: Option<u64>,
    ) -> (r: Result<(), Error>)
        requires
            old(self).kind() == ChainSourceKind::Electrum,
        ensures
            fetch matches Err(e) ==> r == Err::<(), Error>(e) && *final(self) == *old(self),
            fetch matches Ok(cache) ==> (r == Ok::<(), Error>(()) && final(self).fee_estimator@
                == cache@ && fee_update_recorded(*old(self), *final(self), now_opt)),
    {
        match fetch {
            Err(e) => Err(e),
            Ok(cache) => {
                let _changed = self.fee_estimator.set_fee_rate_cache(cache);
                self.node_metrics.record_fee_rate_cache_update(now_opt);
                Ok(())
            },
        }
    }

    /// Refreshes the fee-rate cache from the per-target Bitcoin Core
    /// outcomes: a timeout aborts, a failure aborts on Mainnet, falls back to
    /// the 1 sat/vB floor on Regtest and Signet, and skips the update
    /// (leaving cache and metrics untouched, reporting success) elsewhere.
    /// The returned flag says whether the swapped cache differs.
    pub fn update_fee_rate_estimates_bitcoind(
        &mut self,
        outcomes: &Vec<(ConfirmationTarget, FeeEstimateOutcome)>,
        now_opt: Option<u64>,
    ) -> (r: Result<bool, Error>)
        requires
            old(self).kind() == ChainSourceKind::Bitcoind,
        ensures
            bitcoind_cache_spec(old(self).network, outcomes@) matches Err(e) ==> r == Err::<
                bool,
                Error,
            >(e) && *final(self) == *old(self),
            bitcoind_cache_spec(old(self).network, outcomes@) == Ok::<
                Option<Seq<(ConfirmationTarget, u64)>>,
                Error,
            >(None) ==> r == Ok::<bool, Error>(false) && *final(self) == *old(self),
            bitcoind_cache_spec(old(self).network, outcomes@) matches Ok(c) ==> (c matches Some(
                cache_s,
            ) ==> (r matches Ok(changed) && final(self).fee_estimator@ == cache_s && changed == (
            old(self).fee_estimator@ != cache_s) && fee_update_recorded(
                *old(self),
                *final(self),
                now_opt,
            ))),
    {
        match build_bitcoind_fee_rate_cache(self.network, outcomes) {
            BitcoindCacheBuild::Abort(e) => Err(e),
            BitcoindCacheBuild::SkipUpdate => Ok(false),
            BitcoindCacheBuild::Built(cache) => {
                let changed = self.fee_estimator.set_fee_rate_cache(cache);
                self.node_metrics.record_fee_rate_cache_update(now_opt);
                Ok(changed)
            },
        }
    }
}

} // verus!
