use vstd::prelude::*;

use crate::error::Error;

verus! {

/// The Bitcoin network the node is configured for; fee-estimation failures are
/// handled differently per network (fail closed on Mainnet, fall back on
/// Regtest and Signet, skip the update elsewhere).
#[derive(Clone, Copy, Debug, PartialEq, Eq, Structural)]
pub enum Network {
    /// Mainnet.
    Bitcoin,
    /// Testnet.
    Testnet,
    /// Signet.
    Signet,
    /// Regtest.
    Regtest,
}

/// The confirmation targets of the Lightning implementation the node embeds.
#[derive(Clone, Copy, Debug, PartialEq, Eq, Structural)]
pub enum LdkConfirmationTarget {
    /// An upper-bound estimate used for sanity checks.
    MaximumFeeEstimate,
    /// A sweep that must confirm urgently.
    UrgentOnChainSweep,
    /// The lowest fee an anchor-channel counterparty may use.
    MinAllowedAnchorChannelRemoteFee,
    /// The lowest fee a non-anchor-channel counterparty may use.
    MinAllowedNonAnchorChannelRemoteFee,
    /// The fee for anchor channels.
    AnchorChannelFee,
    /// The fee for non-anchor channels.
    NonAnchorChannelFee,
    /// The minimum fee for a cooperative close.
    ChannelCloseMinimum,
    /// The fee for spending a justice or HTLC output.
    OutputSpendingFee,
}

/// Everything the node estimates a fee rate for: its own on-chain operations
/// plus every confirmation target of the Lightning implementation.
#[derive(Clone, Copy, Debug, PartialEq, Eq, Structural)]
pub enum ConfirmationTarget {
    /// An on-chain payment from the node's wallet.
    OnchainPayment,
    /// A channel-funding transaction.
    ChannelFunding,
    /// A confirmation target of the Lightning implementation.
    Lightning(LdkConfirmationTarget),
}

/// All confirmation targets, in the order the fee-rate cache is refreshed.
pub open spec fn all_conf_targets() -> Seq<ConfirmationTarget> {
    seq![
        ConfirmationTarget::OnchainPayment,
        ConfirmationTarget::ChannelFunding,
        ConfirmationTarget::Lightning(LdkConfirmationTarget::MaximumFeeEstimate),
        ConfirmationTarget::Lightning(LdkConfirmationTarget::UrgentOnChainSweep),
        ConfirmationTarget::Lightning(LdkConfirmationTarget::MinAllowedAnchorChannelRemoteFee),
        ConfirmationTarget::Lightning(LdkConfirmationTarget::MinAllowedNonAnchorChannelRemoteFee),
        ConfirmationTarget::Lightning(LdkConfirmationTarget::AnchorChannelFee),
        ConfirmationTarget::Lightning(LdkConfirmationTarget::NonAnchorChannelFee),
        ConfirmationTarget::Lightning(LdkConfirmationTarget::ChannelCloseMinimum),
        ConfirmationTarget::Lightning(LdkConfirmationTarget::OutputSpendingFee),
    ]
}

/// Every confirmation target the fee-rate cache is refreshed for, in order.
pub fn get_all_conf_targets() -> (r: Vec<ConfirmationTarget>)
    ensures
        r@ == all_conf_targets(),
{
    let mut targets: Vec<ConfirmationTarget> = Vec::new();
    targets.push(ConfirmationTarget::OnchainPayment);
    targets.push(ConfirmationTarget::ChannelFunding);
    targets.push(ConfirmationTarget::Lightning(LdkConfirmationTarget::MaximumFeeEstimate));
    targets.push(ConfirmationTarget::Lightning(LdkConfirmationTarget::UrgentOnChainSweep));
    targets.push(
        ConfirmationTarget::Lightning(LdkConfirmationTarget::MinAllowedAnchorChannelRemoteFee),
    );
    targets.push(
        ConfirmationTarget::Lightning(LdkConfirmationTarget::MinAllowedNonAnchorChannelRemoteFee),
    );
    targets.push(ConfirmationTarget::Lightning(LdkConfirmationTarget::AnchorChannelFee));
    targets.push(ConfirmationTarget::Lightning(LdkConfirmationTarget::NonAnchorChannelFee));
    targets.push(ConfirmationTarget::Lightning(LdkConfirmationTarget::ChannelCloseMinimum));
    targets.push(ConfirmationTarget::Lightning(LdkConfirmationTarget::OutputSpendingFee));
    proof {
        assert(targets@ =~= all_conf_targets());
    }
    targets
}

/// The default block count a target's estimate is requested for.
pub open spec fn num_block_defaults(target: ConfirmationTarget) -> usize {
    match target {
        ConfirmationTarget::OnchainPayment => 6,
        ConfirmationTarget::ChannelFunding => 12,
        ConfirmationTarget::Lightning(ldk_target) => match ldk_target {
            LdkConfirmationTarget::MaximumFeeEstimate => 1,
            LdkConfirmationTarget::UrgentOnChainSweep => 6,
            LdkConfirmationTarget::MinAllowedAnchorChannelRemoteFee => 1008,
            LdkConfirmationTarget::MinAllowedNonAnchorChannelRemoteFee => 144,
            LdkConfirmationTarget::AnchorChannelFee => 1008,
            LdkConfirmationTarget::NonAnchorChannelFee => 12,
            LdkConfirmationTarget::ChannelCloseMinimum => 144,
            LdkConfirmationTarget::OutputSpendingFee => 12,
        },
    }
}

/// The default block count a target's estimate is requested for.
pub fn get_num_block_defaults_for_target(target: ConfirmationTarget) -> (r: usize)
    ensures
        r == num_block_defaults(target),
{
    match target {
        ConfirmationTarget::OnchainPayment => 6,
        ConfirmationTarget::ChannelFunding => 12,
        ConfirmationTarget::Lightning(ldk_target) => match ldk_target {
            LdkConfirmationTarget::MaximumFeeEstimate => 1,
            LdkConfirmationTarget::UrgentOnChainSweep => 6,
            LdkConfirmationTarget::MinAllowedAnchorChannelRemoteFee => 1008,
            LdkConfirmationTarget::MinAllowedNonAnchorChannelRemoteFee => 144,
            LdkConfirmationTarget::AnchorChannelFee => 1008,
            LdkConfirmationTarget::NonAnchorChannelFee => 12,
            LdkConfirmationTarget::ChannelCloseMinimum => 144,
            LdkConfirmationTarget::OutputSpendingFee => 12,
        },
    }
}

/// The rate actually cached for a target, given the backend's estimate in
/// sat/kwu: the seam where per-target adjustments sit. Every target currently
/// passes its estimate through unchanged.
pub open spec fn adjusted_rate(target: ConfirmationTarget, rate_sat_kwu: u64) -> u64 {
    rate_sat_kwu
}

/// Applies the per-target adjustment to an estimated rate before it enters the
/// cache.
pub fn apply_post_estimation_adjustments(target: ConfirmationTarget, rate_sat_kwu: u64) -> (r: u64)
    ensures
        r == adjusted_rate(target, rate_sat_kwu),
{
    rate_sat_kwu
}

/// One sat/vB, the floor every estimate is clamped to, expressed in sat/kwu.
pub const FALLBACK_FEE_RATE_SAT_KWU: u64 = 250;

/// An estimate clamped to the 1 sat/vB floor; the floor itself stands in when
/// the backend gave nothing.
pub open spec fn clamped_rate(converted: Option<u64>) -> u64 {
    match converted {
        None => FALLBACK_FEE_RATE_SAT_KWU,
        Some(v) => if v < FALLBACK_FEE_RATE_SAT_KWU {
            FALLBACK_FEE_RATE_SAT_KWU
        } else {
            v
        },
    }
}

/// Whether the estimates hold an entry whose block target is at or below
/// `target_blocks`.
pub open spec fn has_estimate_at_or_below(est: Seq<(u16, u64)>, target_blocks: usize) -> bool {
    exists|i: int| 0 <= i < est.len() && est[i].0 as usize <= target_blocks
}

/// Whether `(k, rate)` is the estimate for the highest block target at or
/// below `target_blocks`.
pub open spec fn is_best_estimate(
    est: Seq<(u16, u64)>,
    target_blocks: usize,
    k: u16,
    rate: u64,
) -> bool {
    &&& exists|i: int| 0 <= i < est.len() && est[i] == (k, rate)
    &&& k as usize <= target_blocks
    &&& forall|j: int| 0 <= j < est.len() && est[j].0 as usize <= target_blocks ==> est[j].0 <= k
}

/// Whether the estimate targets are pairwise distinct (they come from a map
/// keyed by block target).
pub open spec fn distinct_estimate_targets(est: Seq<(u16, u64)>) -> bool {
    forall|i: int, j: int| 0 <= i < j < est.len() ==> est[i].0 != est[j].0
}

/// Relies on `esplora_client::convert_fee_rate`: among the estimates whose
/// block target is at or below `target_blocks`, it selects the one with the
/// highest target and returns its fee rate; `None` when no target qualifies.
/// Rates are in sat/kwu on both sides of the call.
#[verifier::external_body]
fn convert_fee_rate_for_target(target_blocks: usize, estimates: &Vec<(u16, u64)>) -> (r: Option<
    u64,
>)
    requires
        distinct_estimate_targets(estimates@),
    ensures
        r is Some <==> has_estimate_at_or_below(estimates@, target_blocks),
        r matches Some(rate) ==> exists|k: u16|
            is_best_estimate(estimates@, target_blocks, k, rate),
{
    let map: std::collections::HashMap<u16, bitcoin::FeeRate> = estimates
        .iter()
        .map(|&(k, v)| (k, bitcoin::FeeRate::from_sat_per_kwu(v)))
        .collect();
    esplora_client::convert_fee_rate(target_blocks, map).map(|rate| rate.to_sat_per_kwu())
}

/// Whether `rate` is the value the Esplora fee update caches for `target`,
/// given the backend's estimates: the best estimate for the target's default
/// block count, clamped to the 1 sat/vB floor, with the per-target adjustment
/// applied; the floor stands in when no estimate qualifies.
pub open spec fn esplora_rate_ok(est: Seq<(u16, u64)>, target: ConfirmationTarget, rate: u64) -> bool {
    if has_estimate_at_or_below(est, num_block_defaults(target)) {
        exists|k: u16, raw: u64|
            is_best_estimate(est, num_block_defaults(target), k, raw) && rate == adjusted_rate(
                target,
                clamped_rate(Some(raw)),
            )
    } else {
        rate == adjusted_rate(target, clamped_rate(None::<u64>))
    }
}

/// Builds the new fee-rate cache from an Esplora estimate set, one entry per
/// confirmation target.
///
/// Fail-closed on Mainnet: an empty estimate set is rejected there. Elsewhere
/// an empty set resolves every target to the 1 sat/vB floor.
pub fn build_esplora_fee_rate_cache(network: Network, estimates: &Vec<(u16, u64)>) -> (r: Result<
    Vec<(ConfirmationTarget, u64)>,
    Error,
>)
    requires
        distinct_estimate_targets(estimates@),
    ensures
        network == Network::Bitcoin && estimates@.len() == 0 ==> r == Err::<
            Vec<(ConfirmationTarget, u64)>,
            Error,
        >(Error::FeerateEstimationUpdateFailed),
        !(network == Network::Bitcoin && estimates@.len() == 0) ==> (r matches Ok(cache)
            && cache@.len() == all_conf_targets().len() && (forall|i: int|
            0 <= i < cache@.len() ==> cache@[i].0 == all_conf_targets()[i] && esplora_rate_ok(
                estimates@,
                all_conf_targets()[i],
                cache@[i].1,
            ))),
{
    if estimates.len() == 0 && matches!(network, Network::Bitcoin) {
        return Err(Error::FeerateEstimationUpdateFailed);
    }
    let targets = get_all_conf_targets();
    let mut cache: Vec<(ConfirmationTarget, u64)> = Vec::new();
    let mut i: usize = 0;
    while i < targets.len()
        invariant
            i <= targets.len(),
            targets@ == all_conf_targets(),
            distinct_estimate_targets(estimates@),
            cache@.len() == i,
            forall|j: int|
                0 <= j < i ==> cache@[j].0 == all_conf_targets()[j] && esplora_rate_ok(
                    estimates@,
                    all_conf_targets()[j],
                    cache@[j].1,
                ),
        decreases targets.len() - i,
    {
        let target = targets[i];
        let num_blocks = get_num_block_defaults_for_target(target);
        let converted = convert_fee_rate_for_target(num_blocks, estimates);
        let clamped = match converted {
            None => FALLBACK_FEE_RATE_SAT_KWU,
            Some(v) => {
                if v < FALLBACK_FEE_RATE_SAT_KWU {
                    FALLBACK_FEE_RATE_SAT_KWU
                } else {
                    v
                }
            },
        };
        let adjusted = apply_post_estimation_adjustments(target, clamped);
        proof {
            assert(esplora_rate_ok(estimates@, target, adjusted));
        }
        cache.push((target, adjusted));
        i = i + 1;
    }
    Ok(cache)
}

/// How a Bitcoin Core estimate is requested.
#[derive(Clone, Copy, Debug, PartialEq, Eq, Structural)]
pub enum FeeRateEstimationMode {
    /// The estimator's economical mode.
    Economical,
    /// The estimator's conservative mode.
    Conservative,
}

/// The call the Bitcoind fee update makes for one confirmation target.
#[derive(Clone, Copy, Debug, PartialEq, Eq, Structural)]
pub enum BitcoindEstimateRequest {
    /// Ask for the node's mempool minimum fee.
    MempoolMinimum,
    /// Ask for a smart-fee estimate over this many blocks in this mode.
    Blocks {
        /// How many blocks the estimate targets.
        num_blocks: usize,
        /// Economical or conservative estimation.
        mode: FeeRateEstimationMode,
    },
}

/// Which estimate the Bitcoind fee update requests for a target: the mempool
/// minimum for the lowest acceptable anchor-channel remote fee, a conservative
/// estimate for upper bounds and urgent sweeps, an economical one otherwise.
pub open spec fn bitcoind_request_spec(target: ConfirmationTarget) -> BitcoindEstimateRequest {
    match target {
        ConfirmationTarget::Lightning(
            LdkConfirmationTarget::MinAllowedAnchorChannelRemoteFee,
        ) => BitcoindEstimateRequest::MempoolMinimum,
        ConfirmationTarget::Lightning(LdkConfirmationTarget::MaximumFeeEstimate) => {
            BitcoindEstimateRequest::Blocks {
                num_blocks: num_block_defaults(target),
                mode: FeeRateEstimationMode::Conservative,
            }
        },
        ConfirmationTarget::Lightning(LdkConfirmationTarget::UrgentOnChainSweep) => {
            BitcoindEstimateRequest::Blocks {
                num_blocks: num_block_defaults(target),
                mode: FeeRateEstimationMode::Conservative,
            }
        },
        _ => BitcoindEstimateRequest::Blocks {
            num_blocks: num_block_defaults(target),
            mode: FeeRateEstimationMode::Economical,
        },
    }
}

/// The estimate request the Bitcoind fee update makes for one target.
pub fn bitcoind_estimation_request(target: ConfirmationTarget) -> (r: BitcoindEstimateRequest)
    ensures
        r == bitcoind_request_spec(target),
{
    match target {
        ConfirmationTarget::Lightning(
            LdkConfirmationTarget::MinAllowedAnchorChannelRemoteFee,
        ) => BitcoindEstimateRequest::MempoolMinimum,
        ConfirmationTarget::Lightning(LdkConfirmationTarget::MaximumFeeEstimate) => {
            BitcoindEstimateRequest::Blocks {
                num_blocks: get_num_block_defaults_for_target(target),
                mode: FeeRateEstimationMode::Conservative,
            }
        },
        ConfirmationTarget::Lightning(LdkConfirmationTarget::UrgentOnChainSweep) => {
            BitcoindEstimateRequest::Blocks {
                num_blocks: get_num_block_defaults_for_target(target),
                mode: FeeRateEstimationMode::Conservative,
            }
        },
        _ => BitcoindEstimateRequest::Blocks {
            num_blocks: get_num_block_defaults_for_target(target),
            mode: FeeRateEstimationMode::Economical,
        },
    }
}

/// What one Bitcoind estimate request came back with.
#[derive(Clone, Copy, Debug, PartialEq, Eq, Structural)]
pub enum FeeEstimateOutcome {
    /// The backend estimated this rate, in sat/kwu.
    Rate(u64),
    /// The backend failed to estimate.
    Failed,
    /// The request exceeded the fee-update time budget.
    TimedOut,
}

/// What the Bitcoind fee update decides from the per-target outcomes.
pub enum BitcoindCacheBuild {
    /// Swap this cache in.
    Built(Vec<(ConfirmationTarget, u64)>),
    /// Leave the cache untouched and report success (testnet failure policy).
    SkipUpdate,
    /// Abort the update with this error.
    Abort(Error),
}

/// The Bitcoind fee update over the per-target outcomes, processed in order:
/// a timeout aborts the update; a failure aborts on Mainnet, resolves to the
/// 1 sat/vB floor on Regtest and Signet, and skips the whole update (keeping
/// the previous cache) elsewhere; an estimated rate enters the cache after the
/// per-target adjustment.
pub open spec fn bitcoind_cache_spec(
    network: Network,
    outcomes: Seq<(ConfirmationTarget, FeeEstimateOutcome)>,
) -> Result<Option<Seq<(ConfirmationTarget, u64)>>, Error>
    decreases outcomes.len(),
{
    if outcomes.len() == 0 {
        Ok(Some(Seq::empty()))
    } else {
        let target = outcomes[0].0;
        let rest = bitcoind_cache_spec(network, outcomes.drop_first());
        match outcomes[0].1 {
            FeeEstimateOutcome::TimedOut => Err(Error::FeerateEstimationUpdateTimeout),
            FeeEstimateOutcome::Failed => match network {
                Network::Bitcoin => Err(Error::FeerateEstimationUpdateFailed),
                Network::Regtest | Network::Signet => match rest {
                    Ok(Some(s)) => Ok(
                        Some(
                            seq![(target, adjusted_rate(target, FALLBACK_FEE_RATE_SAT_KWU))] + s,
                        ),
                    ),
                    other => other,
                },
                Network::Testnet => Ok(None),
            },
            FeeEstimateOutcome::Rate(rate) => match rest {
                Ok(Some(s)) => Ok(Some(seq![(target, adjusted_rate(target, rate))] + s)),
                other => other,
            },
        }
    }
}

/// Builds the Bitcoind fee update's decision from the per-target outcomes.
pub fn build_bitcoind_fee_rate_cache(
    network: Network,
    outcomes: &Vec<(ConfirmationTarget, FeeEstimateOutcome)>,
) -> (r: BitcoindCacheBuild)
    ensures
        r matches BitcoindCacheBuild::Built(cache) ==> bitcoind_cache_spec(network, outcomes@)
            == Ok::<Option<Seq<(ConfirmationTarget, u64)>>, Error>(Some(cache@)),
        r is SkipUpdate ==> bitcoind_cache_spec(network, outcomes@) == Ok::<
            Option<Seq<(ConfirmationTarget, u64)>>,
            Error,
        >(None),
        r matches BitcoindCacheBuild::Abort(e) ==> bitcoind_cache_spec(network, outcomes@)
            == Err::<Option<Seq<(ConfirmationTarget, u64)>>, Error>(e),
{
    let ghost whole = bitcoind_cache_spec(network, outcomes@);
    let mut cache: Vec<(ConfirmationTarget, u64)> = Vec::new();
    let mut i: usize = 0;
    proof {
        assert(outcomes@.skip(0) =~= outcomes@);
        match whole {
            Ok(Some(s)) => {
                assert(cache@ + s =~= s);
            },
            _ => {},
        }
    }
    while i < outcomes.len()
        invariant
            i <= outcomes@.len(),
            whole == bitcoind_cache_spec(network, outcomes@),
            bitcoind_cache_spec(network, outcomes@.skip(i as int)) matches Ok(Some(s)) ==> whole
                == Ok::<Option<Seq<(ConfirmationTarget, u64)>>, Error>(Some(cache@ + s)),
            !(bitcoind_cache_spec(network, outcomes@.skip(i as int)) matches Ok(Some(s))) ==> whole
                == bitcoind_cache_spec(network, outcomes@.skip(i as int)),
        decreases outcomes@.len() - i,
    {
        let (target, outcome) = outcomes[i];
        proof {
            assert(outcomes@.skip(i as int)[0] == outcomes@[i as int]);
            assert(outcomes@.skip(i as int).drop_first() =~= outcomes@.skip(i as int + 1));
        }
        match outcome {
            FeeEstimateOutcome::TimedOut => {
                return BitcoindCacheBuild::Abort(Error::FeerateEstimationUpdateTimeout);
            },
            FeeEstimateOutcome::Failed => {
                match network {
                    Network::Bitcoin => {
                        return BitcoindCacheBuild::Abort(Error::FeerateEstimationUpdateFailed);
                    },
                    Network::Regtest | Network::Signet => {
                        let adjusted = apply_post_estimation_adjustments(
                            target,
                            FALLBACK_FEE_RATE_SAT_KWU,
                        );
                        let ghost prev = cache@;
                        cache.push((target, adjusted));
                        proof {
                            lemma_prepend_shift(
                                prev,
                                (target, adjusted),
                                network,
                                outcomes@,
                                i as int,
                            );
                        }
                    },
                    Network::Testnet => {
                        return BitcoindCacheBuild::SkipUpdate;
                    },
                }
            },
            FeeEstimateOutcome::Rate(rate) => {
                let adjusted = apply_post_estimation_adjustments(target, rate);
                let ghost prev = cache@;
                cache.push((target, adjusted));
                proof {
                    lemma_prepend_shift(prev, (target, adjusted), network, outcomes@, i as int);
                }
            },
        }
        i = i + 1;
    }
    proof {
        assert(outcomes@.skip(i as int) =~= Seq::empty());
        assert(cache@ + Seq::<(ConfirmationTarget, u64)>::empty() =~= cache@);
    }
    BitcoindCacheBuild::Built(cache)
}

/// Folding one cache entry into the accumulator keeps the loop's view of the
/// whole Bitcoind decision intact.
proof fn lemma_prepend_shift(
    acc: Seq<(ConfirmationTarget, u64)>,
    entry: (ConfirmationTarget, u64),
    network: Network,
    outcomes: Seq<(ConfirmationTarget, FeeEstimateOutcome)>,
    i: int,
)
    requires
        0 <= i < outcomes.len(),
    ensures
        bitcoind_cache_spec(network, outcomes.skip(i + 1)) matches Ok(Some(s)) ==> acc + (seq![
            entry,
        ] + s) =~= acc.push(entry) + s,
{
    match bitcoind_cache_spec(network, outcomes.skip(i + 1)) {
        Ok(Some(s)) => {
            assert(acc + (seq![entry] + s) =~= acc.push(entry) + s);
        },
        _ => {},
    }
}

/// The single swap operation of the fee estimator's cache: the new cache
/// replaces the old one, and the estimator reports whether anything changed.
pub open spec fn cache_swap_spec(
    old_cache: Seq<(ConfirmationTarget, u64)>,
    new_cache: Seq<(ConfirmationTarget, u64)>,
) -> (Seq<(ConfirmationTarget, u64)>, bool) {
    (new_cache, old_cache != new_cache)
}

/// The fee estimator the node shares with every component: a cache from
/// confirmation target to fee rate in sat/kwu, swapped atomically by the fee
/// updater.
pub struct OnchainFeeEstimator {
    cache: Vec<(ConfirmationTarget, u64)>,
}

impl View for OnchainFeeEstimator {
    type V = Seq<(ConfirmationTarget, u64)>;

    closed spec fn view(&self) -> Seq<(ConfirmationTarget, u64)> {
        self.cache@
    }
}

impl OnchainFeeEstimator {
    /// A fresh estimator with an empty cache.
    pub fn new() -> (r: Self)
        ensures
            r@ == Seq::<(ConfirmationTarget, u64)>::empty(),
    {
        OnchainFeeEstimator { cache: Vec::new() }
    }

    /// The cached rate for a target, if any: the first entry under it.
    pub fn fee_rate(&self, target: ConfirmationTarget) -> (r: Option<u64>)
        ensures
            r is Some <==> exists|i: int| 0 <= i < self@.len() && self@[i].0 == target,
            r matches Some(v) ==> exists|i: int|
                0 <= i < self@.len() && self@[i] == (target, v) && (forall|j: int|
                    0 <= j < i ==> self@[j].0 != target),
    {
        let n = self.cache.len();
        let mut i: usize = 0;
        while i < n
            invariant
                i <= n,
                n == self@.len(),
                forall|j: int| 0 <= j < i ==> self@[j].0 != target,
            decreases n - i,
        {
            let (t, v) = self.cache[i];
            if matches_target(t, target) {
                proof {
                    assert(self@[i as int] =~= (target, v));
                }
                return Some(v);
            }
            i = i + 1;
        }
        None
    }

    /// Swaps the freshly built cache in and reports whether it differs from
    /// the previous one.
    pub fn set_fee_rate_cache(&mut self, new_cache: Vec<(ConfirmationTarget, u64)>) -> (changed:
        bool)
        ensures
            (final(self)@, changed) == cache_swap_spec(old(self)@, new_cache@),
    {
        let equal = fee_caches_equal(&self.cache, &new_cache);
        self.cache = new_cache;
        !equal
    }
}

/// Whether two confirmation targets are the same.
fn matches_target(a: ConfirmationTarget, b: ConfirmationTarget) -> (r: bool)
    ensures
        r == (a == b),
{
    a == b
}

/// Whether two fee-rate caches hold the same entries in the same order.
fn fee_caches_equal(
    a: &Vec<(ConfirmationTarget, u64)>,
    b: &Vec<(ConfirmationTarget, u64)>,
) -> (r: bool)
    ensures
        r == (a@ == b@),
{
    if a.len() != b.len() {
        proof {
            assert(a@.len() != b@.len());
        }
        return false;
    }
    let n = a.len();
    let mut i: usize = 0;
    while i < n
        invariant
            i <= n,
            n == a@.len(),
            n == b@.len(),
            forall|j: int| 0 <= j < i ==> a@[j] == b@[j],
        decreases n - i,
    {
        let (ta, va) = a[i];
        let (tb, vb) = b[i];
        if !matches_target(ta, tb) || va != vb {
            proof {
                assert(a@[i as int] != b@[i as int]);
            }
            return false;
        }
        proof {
            assert(a@[i as int] =~= b@[i as int]);
        }
        i = i + 1;
    }
    proof {
        assert(a@ =~= b@);
    }
    true
}

/// Fee-rate idempotence: swapping the same cache in twice leaves the cache
/// equal to that cache, and the second swap reports no change.
pub proof fn lemma_fee_rate_cache_idempotent(
    initial: Seq<(ConfirmationTarget, u64)>,
    fresh: Seq<(ConfirmationTarget, u64)>,
)
    ensures
        cache_swap_spec(cache_swap_spec(initial, fresh).0, fresh).0 == fresh,
        cache_swap_spec(cache_swap_spec(initial, fresh).0, fresh).1 == false,
{
}

} // verus!
