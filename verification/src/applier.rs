//! The message applier: one message of the stream becomes a bounded run of store
//! actions, followed by a mempool notification where the tip changed.
//!
//! Every run opens a mutation scope first. Committing the scope is the point of
//! no return: a failure before it discards the scope and leaves the store as it
//! was; the notification comes after it.

use vstd::prelude::*;
use crate::hash::{hash_eq, ChainPointer, H256};
use crate::io::{Action, Event};
use crate::message::{LocalBlock, SyncError, SyncMessage};

verus! {

/// Where the application of one message stands: the action that was issued last,
/// with what the rest of the run needs.
#[derive(Clone, Copy, Debug, PartialEq, Eq)]
pub enum Applier {
    /// `OpenScope` was issued for `message`.
    Opening { message: SyncMessage },
    /// `RevertBelow` was issued.
    Reverting { target: ChainPointer },
    /// `LookupBlockHash` was issued.
    LookingUp { block: LocalBlock },
    /// `ApplyBlock` was issued.
    Applying { block: LocalBlock },
    /// `FinalizeCustodians` was issued.
    Finalizing { block: LocalBlock },
    /// `SetSubmitTx` was issued.
    RecordingSubmitTx { pointer: ChainPointer },
    /// `SetLastSubmitted` was issued.
    MarkingSubmitted,
    /// `SetLastConfirmed` was issued.
    MarkingConfirmed,
    /// `Commit` was issued; `notify` is the tip to tell the mempool of afterwards.
    Committing { notify: Option<H256> },
    /// `NotifyNewTip` was issued.
    Notifying,
    /// `DiscardScope` was issued; the run ends with `result`.
    Discarding { result: Result<(), SyncError> },
}

/// The outcome of one step of a run.
#[derive(Clone, Copy, Debug, PartialEq, Eq)]
pub enum Progress {
    /// The run goes on: `action` is to be carried out next.
    Next { applier: Applier, action: Action },
    /// The run is over.
    Finished { result: Result<(), SyncError> },
}

impl Progress {
    /// The run goes on with `action`.
    pub open spec fn next(applier: Applier, action: Action) -> Progress {
        Progress::Next { applier, action }
    }

    /// The scope is discarded and the run ends with `result`.
    pub open spec fn discard(result: Result<(), SyncError>) -> Progress {
        Progress::Next { applier: Applier::Discarding { result }, action: Action::DiscardScope }
    }

    /// The scope is discarded and the run ends with an application error.
    pub open spec fn abort() -> Progress {
        Progress::discard(Err(SyncError::Application))
    }

    /// An upper bound on the number of steps that the run still takes.
    pub open spec fn rank(self) -> nat {
        match self {
            Progress::Next { applier, .. } => applier.rank(),
            Progress::Finished { .. } => 0,
        }
    }
}

impl Applier {
    /// An upper bound on the number of steps from this point to the end of the run.
    pub open spec fn rank(self) -> nat {
        match self {
            Applier::Opening { .. } => 6,
            Applier::LookingUp { .. } => 5,
            Applier::Applying { .. } => 4,
            Applier::RecordingSubmitTx { .. } => 4,
            Applier::Reverting { .. } => 3,
            Applier::Finalizing { .. } => 3,
            Applier::MarkingSubmitted => 3,
            Applier::MarkingConfirmed => 3,
            Applier::Committing { .. } => 2,
            Applier::Notifying => 1,
            Applier::Discarding { .. } => 1,
        }
    }

    /// The start of a run: a mutation scope is opened.
    pub open spec fn start_spec(message: SyncMessage) -> Progress {
        Progress::next(Applier::Opening { message }, Action::OpenScope)
    }

    /// The first action inside the scope, by the kind of message.
    pub open spec fn first_write(message: SyncMessage) -> Progress {
        match message {
            SyncMessage::Revert { target } => Progress::next(
                Applier::Reverting { target },
                Action::RevertBelow { number: target.block_number },
            ),
            SyncMessage::LocalBlock { block } => Progress::next(
                Applier::LookingUp { block },
                Action::LookupBlockHash { number: block.number },
            ),
            SyncMessage::Submitted { pointer, settlement_tx_id } => Progress::next(
                Applier::RecordingSubmitTx { pointer },
                Action::SetSubmitTx { number: pointer.block_number, tx_id: settlement_tx_id },
            ),
            SyncMessage::Confirmed { pointer } => Progress::next(
                Applier::MarkingConfirmed,
                Action::SetLastConfirmed { pointer },
            ),
        }
    }

    /// What follows the lookup of the height of `block`: the block is applied where
    /// the height is free; where it is taken, the scope is discarded, with success
    /// if the stored hash is the block's own and a consistency error if not.
    pub open spec fn after_lookup(block: LocalBlock, stored: Option<H256>) -> Progress {
        match stored {
            None => Progress::next(Applier::Applying { block }, Action::ApplyBlock { block }),
            Some(stored) => if stored == block.hash {
                Progress::discard(Ok(()))
            } else {
                Progress::discard(
                    Err(
                        SyncError::Consistency {
                            number: block.number,
                            stored,
                            received: block.hash,
                        },
                    ),
                )
            },
        }
    }

    /// The commit of the scope, after which the mempool is told of `notify`, if set.
    pub open spec fn commit(notify: Option<H256>) -> Progress {
        Progress::next(Applier::Committing { notify }, Action::Commit)
    }

    /// The step that `event` leads to. An event other than the one that reports the
    /// success of the pending action counts as its failure.
    pub open spec fn step_spec(self, event: Event) -> Progress {
        match self {
            Applier::Opening { message } => if event is Done {
                Applier::first_write(message)
            } else {
                Progress::abort()
            },
            Applier::Reverting { target } => if event is Done {
                Applier::commit(Some(target.block_hash))
            } else {
                Progress::abort()
            },
            Applier::LookingUp { block } => match event {
                Event::BlockHash { stored } => Applier::after_lookup(block, stored),
                _ => Progress::abort(),
            },
            Applier::Applying { block } => if event is Done {
                Progress::next(
                    Applier::Finalizing { block },
                    Action::FinalizeCustodians { number: block.number },
                )
            } else {
                Progress::abort()
            },
            Applier::Finalizing { block } => if event is Done {
                Applier::commit(Some(block.hash))
            } else {
                Progress::abort()
            },
            Applier::RecordingSubmitTx { pointer } => if event is Done {
                Progress::next(Applier::MarkingSubmitted, Action::SetLastSubmitted { pointer })
            } else {
                Progress::abort()
            },
            Applier::MarkingSubmitted => if event is Done {
                Applier::commit(None)
            } else {
                Progress::abort()
            },
            Applier::MarkingConfirmed => if event is Done {
                Applier::commit(None)
            } else {
                Progress::abort()
            },
            Applier::Committing { notify } => if event is Done {
                match notify {
                    Some(hash) => Progress::next(
                        Applier::Notifying,
                        Action::NotifyNewTip { hash },
                    ),
                    None => Progress::Finished { result: Ok(()) },
                }
            } else {
                Progress::abort()
            },
            Applier::Notifying => if event is Done {
                Progress::Finished { result: Ok(()) }
            } else {
                Progress::Finished { result: Err(SyncError::Application) }
            },
            Applier::Discarding { result } => Progress::Finished { result },
        }
    }

    /// Every step brings the run closer to its end.
    pub proof fn lemma_step_decreases(self, event: Event)
        ensures
            self.step_spec(event).rank() < self.rank(),
    {
    }

    /// The commit is the point of no return: it is issued only when the write
    /// before it succeeded, and the mempool is told only when the commit did.
    /// Whatever else fails before the commit, the scope is discarded and the run
    /// ends with an application error.
    pub proof fn lemma_commit_is_point_of_no_return(self, event: Event)
        ensures
            self.step_spec(event) matches Progress::Next { action: Action::Commit, .. }
                ==> event is Done,
            self.step_spec(event) matches Progress::Next { action: Action::NotifyNewTip { .. }, .. }
                ==> self is Committing && event is Done,
            !(event is Done) && !(self is LookingUp && event is BlockHash) && !(self is Notifying)
                && !(self is Discarding) ==> self.step_spec(event) == Progress::abort(),
    {
    }

    /// Starts the application of `message`.
    pub fn start(message: SyncMessage) -> (progress: Progress)
        ensures
            progress == Applier::start_spec(message),
    {
        Progress::Next { applier: Applier::Opening { message }, action: Action::OpenScope }
    }

    /// Takes the event that came of the pending action and says what is next.
    pub fn step(self, event: Event) -> (progress: Progress)
        ensures
            progress == self.step_spec(event),
    {
        let done = match event {
            Event::Done => true,
            _ => false,
        };
        match self {
            Applier::Discarding { result } => Progress::Finished { result },
            Applier::Notifying => if done {
                Progress::Finished { result: Ok(()) }
            } else {
                Progress::Finished { result: Err(SyncError::Application) }
            },
            Applier::LookingUp { block } => match event {
                Event::BlockHash { stored } => after_lookup(block, stored),
                _ => abort(),
            },
            _ => if !done {
                abort()
            } else {
                match self {
                    Applier::Opening { message } => first_write(message),
                    Applier::Reverting { target } => commit(Some(target.block_hash)),
                    Applier::Applying { block } => Progress::Next {
                        applier: Applier::Finalizing { block },
                        action: Action::FinalizeCustodians { number: block.number },
                    },
                    Applier::Finalizing { block } => commit(Some(block.hash)),
                    Applier::RecordingSubmitTx { pointer } => Progress::Next {
                        applier: Applier::MarkingSubmitted,
                        action: Action::SetLastSubmitted { pointer },
                    },
                    Applier::MarkingSubmitted => commit(None),
                    Applier::MarkingConfirmed => commit(None),
                    Applier::Committing { notify } => match notify {
                        Some(hash) => Progress::Next {
                            applier: Applier::Notifying,
                            action: Action::NotifyNewTip { hash },
                        },
                        None => Progress::Finished { result: Ok(()) },
                    },
                    _ => abort(),
                }
            },
        }
    }
}

fn abort() -> (progress: Progress)
    ensures
        progress == Progress::abort(),
{
    Progress::Next {
        applier: Applier::Discarding { result: Err(SyncError::Application) },
        action: Action::DiscardScope,
    }
}

fn commit(notify: Option<H256>) -> (progress: Progress)
    ensures
        progress == Applier::commit(notify),
{
    Progress::Next { applier: Applier::Committing { notify }, action: Action::Commit }
}

fn first_write(message: SyncMessage) -> (progress: Progress)
    ensures
        progress == Applier::first_write(message),
{
    match message {
        SyncMessage::Revert { target } => Progress::Next {
            applier: Applier::Reverting { target },
            action: Action::RevertBelow { number: target.block_number },
        },
        SyncMessage::LocalBlock { block } => Progress::Next {
            applier: Applier::LookingUp { block },
            action: Action::LookupBlockHash { number: block.number },
        },
        SyncMessage::Submitted { pointer, settlement_tx_id } => Progress::Next {
            applier: Applier::RecordingSubmitTx { pointer },
            action: Action::SetSubmitTx { number: pointer.block_number, tx_id: settlement_tx_id },
        },
        SyncMessage::Confirmed { pointer } => Progress::Next {
            applier: Applier::MarkingConfirmed,
            action: Action::SetLastConfirmed { pointer },
        },
    }
}

fn after_lookup(block: LocalBlock, stored: Option<H256>) -> (progress: Progress)
    ensures
        progress == Applier::after_lookup(block, stored),
{
    match stored {
        None => Progress::Next { applier: Applier::Applying { block }, action: Action::ApplyBlock { block } },
        Some(stored) => {
            let result = if hash_eq(&stored, &block.hash) {
                Ok(())
            } else {
                Err(SyncError::Consistency { number: block.number, stored, received: block.hash })
            };
            Progress::Next { applier: Applier::Discarding { result }, action: Action::DiscardScope }
        },
    }
}

} // verus!
