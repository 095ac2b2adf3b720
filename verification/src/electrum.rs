use vstd::prelude::*;

verus! {

/// One filter registration, in the order the node delivered it: either a
/// transaction to watch (with the script it pays to) or a watched output.
pub enum Registration {
    /// Watch for a transaction with this id paying to this script.
    Tx(bitcoin::Txid, bitcoin::ScriptBuf),
    /// Watch an output for being spent.
    Output(lightning::chain::WatchedOutput),
}

/// The registrations to replay, in order, when the Electrum client starts:
/// every queued transaction first, then every queued output.
pub struct ReplayBatch {
    /// Queued transaction registrations, oldest first.
    pub txs: Vec<(bitcoin::Txid, bitcoin::ScriptBuf)>,
    /// Queued output registrations, oldest first.
    pub outputs: Vec<lightning::chain::WatchedOutput>,
}

/// Deferred-start holder for the Electrum backend.
///
/// The Electrum client only exists once the node is started, but filter
/// registrations may arrive before that. While `Stopped`, registrations are
/// queued in insertion order; at start the embedding node constructs the live
/// client and calls [`ElectrumRuntimeStatus::start`], which drains both queues
/// into a [`ReplayBatch`] for the client to consume — transactions first, then
/// outputs — before anything else observes the `Started` state.
pub enum ElectrumRuntimeStatus {
    /// The live client exists (the embedding node holds it); registrations are
    /// forwarded to it directly.
    Started,
    /// No client yet; registrations wait in the two queues.
    Stopped {
        /// Transaction registrations received while stopped, oldest first.
        pending_registered_txs: Vec<(bitcoin::Txid, bitcoin::ScriptBuf)>,
        /// Output registrations received while stopped, oldest first.
        pending_registered_outputs: Vec<lightning::chain::WatchedOutput>,
    },
}

impl ElectrumRuntimeStatus {
    /// The queued transaction registrations (empty when started).
    pub open spec fn pending_txs(self) -> Seq<(bitcoin::Txid, bitcoin::ScriptBuf)> {
        match self {
            ElectrumRuntimeStatus::Started => Seq::empty(),
            ElectrumRuntimeStatus::Stopped { pending_registered_txs, .. } => {
                pending_registered_txs@
            },
        }
    }

    /// The queued output registrations (empty when started).
    pub open spec fn pending_outputs(self) -> Seq<lightning::chain::WatchedOutput> {
        match self {
            ElectrumRuntimeStatus::Started => Seq::empty(),
            ElectrumRuntimeStatus::Stopped { pending_registered_outputs, .. } => {
                pending_registered_outputs@
            },
        }
    }

    /// A fresh status: stopped, with empty queues.
    pub fn new() -> (r: Self)
        ensures
            r is Stopped,
            r.pending_txs() == Seq::<(bitcoin::Txid, bitcoin::ScriptBuf)>::empty(),
            r.pending_outputs() == Seq::<lightning::chain::WatchedOutput>::empty(),
    {
        let pending_registered_txs: Vec<(bitcoin::Txid, bitcoin::ScriptBuf)> = Vec::new();
        let pending_registered_outputs: Vec<lightning::chain::WatchedOutput> = Vec::new();
        ElectrumRuntimeStatus::Stopped { pending_registered_txs, pending_registered_outputs }
    }

    /// Marks the client started and hands back everything queued while
    /// stopped, for replay in insertion order, transactions before outputs.
    /// Starting while already started is a caller bug; it changes nothing and
    /// yields no batch.
    pub fn start(&mut self) -> (r: Option<ReplayBatch>)
        ensures
            *final(self) is Started,
            *old(self) is Stopped ==> r is Some && r->0.txs@ == old(self).pending_txs()
                && r->0.outputs@ == old(self).pending_outputs(),
            *old(self) is Started ==> r is None,
    {
        let mut taken = ElectrumRuntimeStatus::Started;
        core::mem::swap(self, &mut taken);
        match taken {
            ElectrumRuntimeStatus::Started => None,
            ElectrumRuntimeStatus::Stopped {
                pending_registered_txs,
                pending_registered_outputs,
            } => {
                Some(
                    ReplayBatch {
                        txs: pending_registered_txs,
                        outputs: pending_registered_outputs,
                    },
                )
            },
        }
    }

    /// Returns to a fresh stopped state with empty queues; the embedding node
    /// drops its client alongside.
    pub fn stop(&mut self)
        ensures
            *final(self) is Stopped,
            final(self).pending_txs() == Seq::<(bitcoin::Txid, bitcoin::ScriptBuf)>::empty(),
            final(self).pending_outputs() == Seq::<lightning::chain::WatchedOutput>::empty(),
    {
        *self = Self::new();
    }

    /// Whether the live client exists, i.e. whether registrations are
    /// forwarded rather than queued.
    pub fn is_started(&self) -> (r: bool)
        ensures
            r == (*self is Started),
    {
        match self {
            ElectrumRuntimeStatus::Started => true,
            ElectrumRuntimeStatus::Stopped { .. } => false,
        }
    }

    /// Accepts a transaction registration: forwarded to the live client when
    /// started (the caller performs the forwarding iff `forward` is true),
    /// queued in insertion order otherwise.
    pub fn register_tx(&mut self, txid: bitcoin::Txid, script_pubkey: bitcoin::ScriptBuf) -> (forward:
        bool)
        ensures
            forward == (*old(self) is Started),
            *old(self) is Started ==> *final(self) == *old(self),
            *old(self) is Stopped ==> *final(self) is Stopped && final(self).pending_txs()
                == old(self).pending_txs().push((txid, script_pubkey))
                && final(self).pending_outputs() == old(self).pending_outputs(),
    {
        match self {
            ElectrumRuntimeStatus::Started => true,
            ElectrumRuntimeStatus::Stopped { pending_registered_txs, .. } => {
                pending_registered_txs.push((txid, script_pubkey));
                false
            },
        }
    }

    /// Accepts an output registration: forwarded when started, queued in
    /// insertion order otherwise.
    pub fn register_output(&mut self, output: lightning::chain::WatchedOutput) -> (forward: bool)
        ensures
            forward == (*old(self) is Started),
            *old(self) is Started ==> *final(self) == *old(self),
            *old(self) is Stopped ==> *final(self) is Stopped && final(self).pending_outputs()
                == old(self).pending_outputs().push(output) && final(self).pending_txs() == old(
                self,
            ).pending_txs(),
    {
        match self {
            ElectrumRuntimeStatus::Started => true,
            ElectrumRuntimeStatus::Stopped { pending_registered_outputs, .. } => {
                pending_registered_outputs.push(output);
                false
            },
        }
    }
}

/// What the underlying client observes when a [`ReplayBatch`] with these
/// queues is replayed: the transactions in order, then the outputs in order.
pub open spec fn observations(
    txs: Seq<(bitcoin::Txid, bitcoin::ScriptBuf)>,
    outputs: Seq<lightning::chain::WatchedOutput>,
) -> Seq<Registration> {
    txs.map_values(|p: (bitcoin::Txid, bitcoin::ScriptBuf)| Registration::Tx(p.0, p.1))
        + outputs.map_values(|w: lightning::chain::WatchedOutput| Registration::Output(w))
}

/// The two queues after a run of registrations is delivered to a stopped
/// status whose queues start as `txs` / `outputs`.
pub open spec fn queues_after(
    txs: Seq<(bitcoin::Txid, bitcoin::ScriptBuf)>,
    outputs: Seq<lightning::chain::WatchedOutput>,
    events: Seq<Registration>,
) -> (Seq<(bitcoin::Txid, bitcoin::ScriptBuf)>, Seq<lightning::chain::WatchedOutput>)
    decreases events.len(),
{
    if events.len() == 0 {
        (txs, outputs)
    } else {
        match events[0] {
            Registration::Tx(txid, script) => {
                queues_after(txs.push((txid, script)), outputs, events.drop_first())
            },
            Registration::Output(w) => {
                queues_after(txs, outputs.push(w), events.drop_first())
            },
        }
    }
}

/// The transaction registrations among `events`, in order, as queue entries.
pub open spec fn tx_payloads(events: Seq<Registration>) -> Seq<
    (bitcoin::Txid, bitcoin::ScriptBuf),
>
    decreases events.len(),
{
    if events.len() == 0 {
        Seq::empty()
    } else {
        match events[0] {
            Registration::Tx(txid, script) => {
                seq![(txid, script)] + tx_payloads(events.drop_first())
            },
            Registration::Output(_) => tx_payloads(events.drop_first()),
        }
    }
}

/// The output registrations among `events`, in order.
pub open spec fn output_payloads(events: Seq<Registration>) -> Seq<
    lightning::chain::WatchedOutput,
>
    decreases events.len(),
{
    if events.len() == 0 {
        Seq::empty()
    } else {
        match events[0] {
            Registration::Tx(_, _) => output_payloads(events.drop_first()),
            Registration::Output(w) => seq![w] + output_payloads(events.drop_first()),
        }
    }
}

/// Registration replay: after any run of registrations delivered while
/// stopped, the transaction queue holds exactly the transaction registrations
/// in insertion order and the output queue exactly the output registrations in
/// insertion order — so the batch replayed at start is observed as the
/// insertion order, transactions before outputs.
pub proof fn lemma_registration_replay(
    txs: Seq<(bitcoin::Txid, bitcoin::ScriptBuf)>,
    outputs: Seq<lightning::chain::WatchedOutput>,
    events: Seq<Registration>,
)
    ensures
        queues_after(txs, outputs, events).0 =~= txs + tx_payloads(events),
        queues_after(txs, outputs, events).1 =~= outputs + output_payloads(events),
    decreases events.len(),
{
    if events.len() == 0 {
        assert(txs + tx_payloads(events) =~= txs);
        assert(outputs + output_payloads(events) =~= outputs);
    } else {
        match events[0] {
            Registration::Tx(txid, script) => {
                lemma_registration_replay(txs.push((txid, script)), outputs, events.drop_first());
                assert(txs.push((txid, script)) + tx_payloads(events.drop_first()) =~= txs + (seq![
                    (txid, script),
                ] + tx_payloads(events.drop_first())));
            },
            Registration::Output(w) => {
                lemma_registration_replay(txs, outputs.push(w), events.drop_first());
                assert(outputs.push(w) + output_payloads(events.drop_first()) =~= outputs + (seq![w]
                    + output_payloads(events.drop_first())));
            },
        }
    }
}

} // verus!
