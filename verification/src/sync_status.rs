use vstd::prelude::*;

use crate::error::Error;

verus! {

/// The at-most-one-in-flight lock kept per work kind (on-chain wallet sync,
/// Lightning wallet sync, wallet polling).
///
/// The first caller of [`WalletSyncStatus::register_or_subscribe_pending_sync`]
/// in an episode becomes the owner of the in-flight work; every later caller is
/// handed a subscriber ticket instead and waits for the owner's outcome. The
/// owner ends the episode with
/// [`WalletSyncStatus::propagate_result_to_subscribers`], which hands every
/// subscriber one copy of the same result and resets the lock.
///
/// The embedding node performs the actual hand-off (a broadcast channel); this
/// type decides ownership and says exactly which values are delivered.
#[derive(Clone, Copy, Debug)]
pub enum WalletSyncStatus {
    /// No work of this kind is in flight.
    Completed,
    /// Work is in flight; `subscribers` callers are waiting for its outcome.
    InProgress { subscribers: u64 },
}

impl WalletSyncStatus {
    /// How many callers are waiting on the in-flight work.
    pub open spec fn subscriber_count(self) -> nat {
        match self {
            WalletSyncStatus::Completed => 0,
            WalletSyncStatus::InProgress { subscribers } => subscribers as nat,
        }
    }

    /// The step `register_or_subscribe_pending_sync` takes: the new status and
    /// the reply to the caller (`None`: the caller owns the work; `Some(t)`:
    /// the caller subscribes with ticket `t`).
    pub open spec fn register_transition(self) -> (WalletSyncStatus, Option<u64>) {
        match self {
            WalletSyncStatus::Completed => (
                WalletSyncStatus::InProgress { subscribers: 0 },
                None,
            ),
            WalletSyncStatus::InProgress { subscribers } => (
                WalletSyncStatus::InProgress { subscribers: (subscribers + 1) as u64 },
                Some(subscribers),
            ),
        }
    }

    /// The step `propagate_result_to_subscribers` takes: the new status and the
    /// sequence of values delivered, one per subscriber.
    pub open spec fn propagate_transition(self, res: Result<(), Error>) -> (
        WalletSyncStatus,
        Seq<Result<(), Error>>,
    ) {
        match self {
            WalletSyncStatus::Completed => (self, Seq::empty()),
            WalletSyncStatus::InProgress { subscribers } => (
                WalletSyncStatus::Completed,
                Seq::new(subscribers as nat, |i: int| res),
            ),
        }
    }

    /// If no work of this kind is in flight, the caller becomes its owner and
    /// `None` is returned; otherwise the caller is added as one more subscriber
    /// and receives its ticket.
    pub fn register_or_subscribe_pending_sync(&mut self) -> (r: Option<u64>)
        requires
            old(self).subscriber_count() < u64::MAX as nat,
        ensures
            (*final(self), r) == old(self).register_transition(),
            r is None <==> *old(self) is Completed,
    {
        match self {
            WalletSyncStatus::Completed => {
                *self = WalletSyncStatus::InProgress { subscribers: 0 };
                None
            },
            WalletSyncStatus::InProgress { subscribers } => {
                let ticket: u64 = *subscribers;
                *subscribers = ticket + 1;
                Some(ticket)
            },
        }
    }

    /// Ends the in-flight episode: every subscriber is delivered one copy of
    /// `res`, and the status resets to `Completed`. Calling this with no
    /// episode in flight delivers nothing and changes nothing.
    pub fn propagate_result_to_subscribers(&mut self, res: Result<(), Error>) -> (deliveries: Vec<
        Result<(), Error>,
    >)
        ensures
            *final(self) == old(self).propagate_transition(res).0,
            deliveries@ == old(self).propagate_transition(res).1,
            *final(self) is Completed <== *old(self) is InProgress,
    {
        match self {
            WalletSyncStatus::Completed => Vec::new(),
            WalletSyncStatus::InProgress { subscribers } => {
                let n: u64 = *subscribers;
                let mut deliveries: Vec<Result<(), Error>> = Vec::new();
                let mut i: u64 = 0;
                while i < n
                    invariant
                        i <= n,
                        deliveries@.len() == i as nat,
                        forall|j: int| 0 <= j < i ==> deliveries@[j] == res,
                    decreases n - i,
                {
                    deliveries.push(res);
                    i = i + 1;
                }
                proof {
                    assert(deliveries@ =~= Seq::new(n as nat, |j: int| res));
                }
                *self = WalletSyncStatus::Completed;
                deliveries
            },
        }
    }
}

/// The status reached from `Completed` after `n` consecutive
/// `register_or_subscribe_pending_sync` calls.
pub open spec fn status_after_registrations(n: nat) -> WalletSyncStatus
    decreases n,
{
    if n == 0 {
        WalletSyncStatus::Completed
    } else {
        status_after_registrations((n - 1) as nat).register_transition().0
    }
}

/// After `n >= 1` registrations the status is in flight with `n - 1`
/// subscribers: one caller owns the work, the rest wait.
pub proof fn lemma_status_after_registrations(n: nat)
    requires
        n <= u64::MAX as nat,
    ensures
        n == 0 ==> status_after_registrations(n) == WalletSyncStatus::Completed,
        n >= 1 ==> status_after_registrations(n) == (WalletSyncStatus::InProgress {
            subscribers: (n - 1) as u64,
        }),
    decreases n,
{
    if n >= 1 {
        lemma_status_after_registrations((n - 1) as nat);
    }
}

/// Single-flight: in an episode that begins `Completed` and sees `n` callers,
/// the first caller (and only the first) owns the work, and publishing a
/// result afterwards delivers exactly `n - 1` values, every one of them equal
/// to the published result.
pub proof fn lemma_single_flight(n: nat, k: nat, res: Result<(), Error>)
    requires
        1 <= k <= n,
        n <= u64::MAX as nat,
    ensures
        status_after_registrations((k - 1) as nat).register_transition().1 is None <==> k == 1,
        status_after_registrations(n).propagate_transition(res).1.len() == n - 1,
        forall|i: int|
            0 <= i < n - 1 ==> status_after_registrations(n).propagate_transition(res).1[i] == res,
{
    lemma_status_after_registrations((k - 1) as nat);
    lemma_status_after_registrations(n);
}

} // verus!
