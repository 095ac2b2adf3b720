use vstd::prelude::*;

verus! {

/// The level a broadcast attempt's outcome is logged at.
#[derive(Clone, Copy, Debug, PartialEq, Eq, Structural)]
pub enum BroadcastLogLevel {
    /// Routine detail.
    Trace,
    /// A real failure.
    Error,
}

/// What one broadcast attempt came back with from the backend.
#[derive(Clone, Copy, Debug, PartialEq, Eq, Structural)]
pub enum BroadcastOutcome {
    /// The backend accepted the transaction.
    Delivered,
    /// The backend answered with this HTTP status.
    HttpStatus {
        /// The HTTP status code of the response.
        status: u16,
    },
    /// The backend failed in some other way.
    BackendError,
    /// The attempt exceeded the broadcast time budget.
    TimedOut,
}

/// How the pump reacts to one broadcast attempt: where to log, whether to dump
/// the raw transaction bytes at trace level, and whether to proceed with the
/// rest of the package.
#[derive(Clone, Copy, Debug, PartialEq, Eq, Structural)]
pub struct BroadcastDisposition {
    /// The level the outcome is logged at.
    pub level: BroadcastLogLevel,
    /// Whether the raw transaction bytes are dumped at trace level.
    pub log_raw_tx: bool,
    /// Whether the pump continues with the next transaction.
    pub proceed: bool,
}

/// The Esplora pump's reaction to one attempt. An HTTP 400 is logged at trace
/// only: it usually means the network already knows the transaction. Every
/// other failure is an error; nothing stops the package.
pub open spec fn esplora_disposition(o: BroadcastOutcome) -> BroadcastDisposition {
    match o {
        BroadcastOutcome::Delivered => BroadcastDisposition {
            level: BroadcastLogLevel::Trace,
            log_raw_tx: false,
            proceed: true,
        },
        BroadcastOutcome::HttpStatus { status } => BroadcastDisposition {
            level: if status == 400 {
                BroadcastLogLevel::Trace
            } else {
                BroadcastLogLevel::Error
            },
            log_raw_tx: true,
            proceed: true,
        },
        BroadcastOutcome::BackendError => BroadcastDisposition {
            level: BroadcastLogLevel::Error,
            log_raw_tx: true,
            proceed: true,
        },
        BroadcastOutcome::TimedOut => BroadcastDisposition {
            level: BroadcastLogLevel::Error,
            log_raw_tx: true,
            proceed: true,
        },
    }
}

/// The Bitcoin Core pump's reaction to one attempt: success at trace, any
/// failure or timeout as an error with the raw bytes dumped; nothing stops
/// the package.
pub open spec fn bitcoind_disposition(o: BroadcastOutcome) -> BroadcastDisposition {
    match o {
        BroadcastOutcome::Delivered => BroadcastDisposition {
            level: BroadcastLogLevel::Trace,
            log_raw_tx: false,
            proceed: true,
        },
        _ => BroadcastDisposition {
            level: BroadcastLogLevel::Error,
            log_raw_tx: true,
            proceed: true,
        },
    }
}

/// Classifies one Esplora broadcast attempt.
pub fn classify_esplora_broadcast(outcome: BroadcastOutcome) -> (r: BroadcastDisposition)
    ensures
        r == esplora_disposition(outcome),
{
    match outcome {
        BroadcastOutcome::Delivered => BroadcastDisposition {
            level: BroadcastLogLevel::Trace,
            log_raw_tx: false,
            proceed: true,
        },
        BroadcastOutcome::HttpStatus { status } => BroadcastDisposition {
            level: if status == 400 {
                BroadcastLogLevel::Trace
            } else {
                BroadcastLogLevel::Error
            },
            log_raw_tx: true,
            proceed: true,
        },
        BroadcastOutcome::BackendError => BroadcastDisposition {
            level: BroadcastLogLevel::Error,
            log_raw_tx: true,
            proceed: true,
        },
        BroadcastOutcome::TimedOut => BroadcastDisposition {
            level: BroadcastLogLevel::Error,
            log_raw_tx: true,
            proceed: true,
        },
    }
}

/// Classifies one Bitcoin Core broadcast attempt.
pub fn classify_bitcoind_broadcast(outcome: BroadcastOutcome) -> (r: BroadcastDisposition)
    ensures
        r == bitcoind_disposition(outcome),
{
    match outcome {
        BroadcastOutcome::Delivered => BroadcastDisposition {
            level: BroadcastLogLevel::Trace,
            log_raw_tx: false,
            proceed: true,
        },
        _ => BroadcastDisposition {
            level: BroadcastLogLevel::Error,
            log_raw_tx: true,
            proceed: true,
        },
    }
}

/// Works through one package: every transaction of the package gets exactly
/// one attempt, in package order, and each attempt's disposition is decided
/// independently of how the earlier ones fared.
pub fn process_package_esplora(outcomes: &Vec<BroadcastOutcome>) -> (r: Vec<BroadcastDisposition>)
    ensures
        r@.len() == outcomes@.len(),
        forall|i: int| 0 <= i < r@.len() ==> r@[i] == esplora_disposition(outcomes@[i]),
{
    let mut dispositions: Vec<BroadcastDisposition> = Vec::new();
    let mut i: usize = 0;
    while i < outcomes.len()
        invariant
            i <= outcomes@.len(),
            dispositions@.len() == i,
            forall|j: int| 0 <= j < i ==> dispositions@[j] == esplora_disposition(outcomes@[j]),
        decreases outcomes@.len() - i,
    {
        dispositions.push(classify_esplora_broadcast(outcomes[i]));
        i = i + 1;
    }
    dispositions
}

/// Works through one package against Bitcoin Core, one attempt per
/// transaction in package order.
pub fn process_package_bitcoind(outcomes: &Vec<BroadcastOutcome>) -> (r: Vec<BroadcastDisposition>)
    ensures
        r@.len() == outcomes@.len(),
        forall|i: int| 0 <= i < r@.len() ==> r@[i] == bitcoind_disposition(outcomes@[i]),
{
    let mut dispositions: Vec<BroadcastDisposition> = Vec::new();
    let mut i: usize = 0;
    while i < outcomes.len()
        invariant
            i <= outcomes@.len(),
            dispositions@.len() == i,
            forall|j: int| 0 <= j < i ==> dispositions@[j] == bitcoind_disposition(outcomes@[j]),
        decreases outcomes@.len() - i,
    {
        dispositions.push(classify_bitcoind_broadcast(outcomes[i]));
        i = i + 1;
    }
    dispositions
}

/// The pump never abandons a package: whatever a broadcast attempt came back
/// with, its disposition lets the loop proceed to the next transaction.
pub proof fn lemma_broadcast_always_proceeds(o: BroadcastOutcome)
    ensures
        esplora_disposition(o).proceed,
        bitcoind_disposition(o).proceed,
{
}

} // verus!
