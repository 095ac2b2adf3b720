use vstd::prelude::*;

verus! {

// The chain-source core carries a handful of value types of the `bitcoin` and
// `lightning` crates through its state: transaction ids and scripts queued for
// filter registration, block hashes seeding the listener catch-up. The core
// never looks inside them, so they are declared opaquely and treated as
// abstract values.

/// Declares `bitcoin::Txid` (a 32-byte transaction id) as an opaque value type.
#[verifier::external_type_specification]
#[verifier::external_body]
pub struct ExTxid(bitcoin::Txid);

/// Declares `bitcoin::ScriptBuf` (an owned script) as an opaque value type.
#[verifier::external_type_specification]
#[verifier::external_body]
pub struct ExScriptBuf(bitcoin::ScriptBuf);

/// Declares `bitcoin::BlockHash` (a 32-byte block hash) as an opaque value type.
#[verifier::external_type_specification]
#[verifier::external_body]
pub struct ExBlockHash(bitcoin::BlockHash);

/// Declares `lightning::chain::WatchedOutput` (an output the backend filter is
/// asked to watch: outpoint, script, and optional block-hash context) as an
/// opaque value type.
#[verifier::external_type_specification]
#[verifier::external_body]
pub struct ExWatchedOutput(lightning::chain::WatchedOutput);

/// Relies on the derived `PartialEq` of `bitcoin::BlockHash`, which compares
/// the 32 hash bytes and so decides equality of the underlying value.
pub assume_specification[ <bitcoin::BlockHash as PartialEq>::eq ](
    a: &bitcoin::BlockHash,
    b: &bitcoin::BlockHash,
) -> (r: bool)
    ensures
        r == (a == b),
;

/// The best block a chain listener currently knows, as its hash and height.
#[derive(Clone, Copy, Debug, PartialEq, Eq)]
pub struct BestBlock {
    /// The block's hash.
    pub block_hash: bitcoin::BlockHash,
    /// The height at which the block was confirmed.
    pub height: u32,
}

} // verus!
