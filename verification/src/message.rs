//! The values exchanged with a peer, and the classes of failure.

use vstd::prelude::*;
use crate::hash::{ChainPointer, H256};

verus! {

/// Asks a peer to resume synchronisation from the client's last confirmed block.
#[derive(Clone, Copy, Debug, PartialEq, Eq)]
pub struct SyncRequest {
    pub block_hash: H256,
    pub block_number: u64,
}

/// A peer's answer to a [`SyncRequest`].
#[derive(Clone, Copy, Debug, PartialEq, Eq)]
pub enum SyncResponse {
    /// The peer can serve from the requested point; messages follow.
    Found,
    /// The peer cannot serve yet; the request is to be sent again later.
    TryAgain,
}

/// What the applier reads of a locally produced block. The block's body and the
/// auxiliary inputs (deposits, deposit asset scripts, withdrawals, expected post
/// state) stay with the caller, who hands them to the chain component when the
/// applier asks for the block to be applied.
#[derive(Clone, Copy, Debug, PartialEq, Eq)]
pub struct LocalBlock {
    pub number: u64,
    pub hash: H256,
    pub parent_hash: H256,
}

/// One message of the continuous stream that follows a successful handshake.
#[derive(Clone, Copy, Debug, PartialEq, Eq)]
pub enum SyncMessage {
    /// Rewind to `target`.
    Revert { target: ChainPointer },
    /// A fully formed block to apply locally.
    LocalBlock { block: LocalBlock },
    /// The block at `pointer` was submitted to the settlement layer in `settlement_tx_id`.
    Submitted { pointer: ChainPointer, settlement_tx_id: H256 },
    /// The block at `pointer` is final on the settlement layer.
    Confirmed { pointer: ChainPointer },
}

/// Why a synchronisation cycle ended early.
#[derive(Clone, Copy, Debug, PartialEq, Eq)]
pub enum SyncError {
    /// The stream broke, ended during the handshake, or carried bytes that do not parse.
    /// The stream is discarded.
    Transport,
    /// The store, the chain component, the mempool or the settlement-layer sync failed.
    /// The stream is kept and the cycle is retried.
    Application,
    /// The store already holds a different block at the height of an incoming block.
    Consistency { number: u64, stored: H256, received: H256 },
}

impl SyncRequest {
    /// The request that resumes from `pointer`.
    pub open spec fn resuming_from(pointer: ChainPointer) -> SyncRequest {
        SyncRequest { block_hash: pointer.block_hash, block_number: pointer.block_number }
    }

    /// Builds the request that resumes from `pointer`.
    pub fn new(pointer: ChainPointer) -> (request: SyncRequest)
        ensures
            request == SyncRequest::resuming_from(pointer),
    {
        SyncRequest { block_hash: pointer.block_hash, block_number: pointer.block_number }
    }
}

impl LocalBlock {
    /// The pointer at which this block sits once applied.
    pub open spec fn pointer_spec(self) -> ChainPointer {
        ChainPointer { block_number: self.number, block_hash: self.hash }
    }

    /// The pointer at which this block sits once applied.
    #[verifier::when_used_as_spec(pointer_spec)]
    pub fn pointer(self) -> (p: ChainPointer)
        ensures
            p == self.pointer_spec(),
    {
        ChainPointer { block_number: self.number, block_hash: self.hash }
    }
}

} // verus!
