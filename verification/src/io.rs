//! What the client asks of its surroundings, and what they answer. The client
//! itself performs nothing: it returns an [`Action`], the caller carries it out
//! and hands back the [`Event`] that came of it.

use vstd::prelude::*;
use crate::hash::{ChainPointer, H256};
use crate::message::{LocalBlock, SyncError, SyncMessage, SyncRequest, SyncResponse};
use crate::wire::response_of;

verus! {

/// The fixed delay before a retry, in seconds.
pub const BACKOFF_SECS: u64 = 3;

/// One thing for the caller to do.
#[derive(Clone, Copy, Debug, PartialEq, Eq)]
pub enum Action {
    /// Ask the stream source, without blocking, for a newly established stream.
    PollStream,
    /// Advance the chain as far as the settlement layer allows.
    SyncL1,
    /// Sleep for `delay_secs`. Before that, discard the active stream if
    /// `drop_stream` is set; `error` is what ended the cycle, if anything did.
    Backoff { delay_secs: u64, drop_stream: bool, error: Option<SyncError> },
    /// Read the hash of the store's valid tip.
    ReadValidTip,
    /// Read the store's last confirmed pointer.
    ReadLastConfirmed,
    /// Send `request` on the active stream.
    Send { request: SyncRequest },
    /// Receive the next message from the active stream.
    Receive,
    /// Open a store mutation scope; one still open is discarded.
    OpenScope,
    /// Look up, inside the scope, the block hash stored at `number`.
    LookupBlockHash { number: u64 },
    /// Remove, inside the scope, all store state above `number` and make the block at
    /// `number` the valid tip.
    RevertBelow { number: u64 },
    /// Validate and execute `block` inside the scope.
    ApplyBlock { block: LocalBlock },
    /// Compute and persist, inside the scope, the state that depends on the
    /// finalisation of the block at `number`.
    FinalizeCustodians { number: u64 },
    /// Record, inside the scope, `tx_id` as the settlement transaction of `number`.
    SetSubmitTx { number: u64, tx_id: H256 },
    /// Set, inside the scope, the last submitted pointer.
    SetLastSubmitted { pointer: ChainPointer },
    /// Set, inside the scope, the last confirmed pointer.
    SetLastConfirmed { pointer: ChainPointer },
    /// Commit the scope: all of its writes become visible together.
    Commit,
    /// Discard the scope: none of its writes becomes visible.
    DiscardScope,
    /// Tell the mempool that the tip is now `hash`.
    NotifyNewTip { hash: H256 },
    /// Mark, in the mempool, the initial synchronisation as complete.
    MarkInitialSyncCompleted,
}

/// A lock of the client's. No action needs two, and none is held from one action
/// to the next.
#[derive(Clone, Copy, Debug, PartialEq, Eq)]
pub enum Lock {
    /// The lock on the chain component.
    Chain,
    /// The lock on the mempool.
    MemPool,
}

impl Action {
    /// The lock that the action needs, if any: the chain's around the application
    /// of a block, the mempool's around a notification or the mark.
    pub open spec fn lock_spec(&self) -> Option<Lock> {
        match self {
            Action::ApplyBlock { .. } | Action::FinalizeCustodians { .. } => Some(Lock::Chain),
            Action::NotifyNewTip { .. } | Action::MarkInitialSyncCompleted => Some(Lock::MemPool),
            _ => None,
        }
    }

    /// The lock to hold while the action is carried out, if any.
    #[verifier::when_used_as_spec(lock_spec)]
    pub fn lock(&self) -> (lock: Option<Lock>)
        ensures
            lock == self.lock_spec(),
    {
        match self {
            Action::ApplyBlock { .. } | Action::FinalizeCustodians { .. } => Some(Lock::Chain),
            Action::NotifyNewTip { .. } | Action::MarkInitialSyncCompleted => Some(Lock::MemPool),
            _ => None,
        }
    }
}

/// What came of the last action.
#[derive(Clone, Copy, Debug, PartialEq, Eq)]
pub enum Event {
    /// The action was carried out.
    Done,
    /// The action failed in the store, the chain component, the mempool or the
    /// settlement-layer sync.
    Failed,
    /// Sending or receiving failed: the stream is broken.
    Disconnected,
    /// The stream source holds no new stream.
    NoStream,
    /// The stream source handed over a new stream, which is now the active one.
    StreamReady,
    /// The hash of the store's valid tip.
    ValidTip { hash: H256 },
    /// The store's last confirmed pointer.
    LastConfirmed { pointer: ChainPointer },
    /// The block hash stored at the number looked up, if any.
    BlockHash { stored: Option<H256> },
    /// The peer's answer to a request.
    Response { response: SyncResponse },
    /// A message of the stream.
    Message { message: SyncMessage },
    /// The stream delivered bytes that do not parse.
    Malformed,
    /// The peer closed the stream.
    EndOfStream,
}

impl Event {
    /// The event that the bytes received in answer to a request amount to.
    pub open spec fn of_response_bytes(bytes: Seq<u8>) -> Event {
        match response_of(bytes) {
            Some(response) => Event::Response { response },
            None => Event::Malformed,
        }
    }

    /// Turns the bytes received in answer to a request into an event: the decoded
    /// response, or `Malformed`.
    pub fn from_response_bytes(bytes: &[u8]) -> (event: Event)
        ensures
            event == Event::of_response_bytes(bytes@),
    {
        match SyncResponse::from_bytes(bytes) {
            Some(response) => Event::Response { response },
            None => Event::Malformed,
        }
    }
}

} // verus!
