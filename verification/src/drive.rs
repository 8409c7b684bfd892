//! The client run against the in-memory node: the node carries out every action
//! that is its own, and the run stops at the first that is not, which is left
//! to the caller (the stream, the settlement-layer sync, the backoff).

use vstd::prelude::*;
use crate::applier::{Applier, Progress};
use crate::block_sync_client::{BlockSyncClient, Step};
use crate::io::{Action, Event};
use crate::message::{SyncMessage, SyncRequest};
use crate::node::{lemma_run_is_applied, Node, NodeState};

verus! {

impl Step {
    /// An upper bound on the number of actions in a row that the node can carry
    /// out from this step on.
    pub open spec fn rank(self) -> nat {
        match self {
            Step::Receiving => 7,
            Step::Applying { applier } => applier.rank(),
            Step::Preparing => 5,
            Step::ReadingTip => 4,
            Step::NotifyingTip => 3,
            Step::MarkingSynced => 2,
            Step::ReadingConfirmed => 1,
            _ => 0,
        }
    }
}

impl NodeState {
    /// An upper bound on the number of actions that the node carries out before the
    /// client issues one that is not the node's.
    pub open spec fn budget(self, client: BlockSyncClient, action: Action) -> nat {
        if self.perform(action).1 is Some {
            client.step.rank() + 1
        } else {
            0
        }
    }

    /// The node, the client and the pending action after the node carried out
    /// `action` and every action that the client issued after it, up to the first
    /// that is not the node's.
    pub open spec fn advanced(self, client: BlockSyncClient, action: Action) -> (
        NodeState,
        BlockSyncClient,
        Action,
    )
        decreases self.budget(client, action),
    {
        match self.perform(action) {
            (node, Some(event)) => {
                let (next, action) = client.step_spec(event);
                node.advanced(next, action)
            },
            (_, None) => (self, client, action),
        }
    }
}

/// A run of the applier inside the client, carried out on the node, ends where
/// the applier's own run ends, with the client receiving again after a success
/// and retrying after a failure.
pub proof fn lemma_advance_settles(
    node: NodeState,
    client: BlockSyncClient,
    applier: Applier,
    action: Action,
)
    requires
        node.perform(action).1 is Some,
    ensures
        node.advanced(client.at(Step::Applying { applier }), action) == ({
            let (end, result) = node.settled(Progress::Next { applier, action });
            let (next, action) = client.follow(Progress::Finished { result });
            (end, next, action)
        }),
    decreases applier.rank(),
{
    reveal_with_fuel(NodeState::advanced, 2);
    reveal_with_fuel(NodeState::settled, 2);
    let (after, event) = node.perform(action);
    let event = event.unwrap();
    match applier.step_spec(event) {
        Progress::Next { applier: then, action: following } => {
            lemma_advance_settles(after, client, then, following);
        },
        Progress::Finished { result } => {
            let (next, last) = client.follow(Progress::Finished { result });
        },
    }
}

/// A message that reaches a streaming client is applied to the node as
/// [`NodeState::applied`] says; the client then receives the next message if
/// that succeeded, and backs off with the error, keeping the stream, if not.
pub proof fn lemma_message_is_applied(
    node: NodeState,
    client: BlockSyncClient,
    message: SyncMessage,
)
    requires
        client.step is Receiving,
    ensures
        ({
            let (next, action) = client.step_spec(Event::Message { message });
            let (applied, result) = node.applied(message);
            node.advanced(next, action) == match result {
                Ok(_) => (applied, client, Action::Receive),
                Err(error) => (applied, client.retry(Some(error)).0, client.retry(Some(error)).1),
            }
        }),
{
    lemma_run_is_applied(node, message);
    lemma_advance_settles(node, client, Applier::Opening { message }, Action::OpenScope);
}

/// A handshake round on a node that holds a valid tip and a last confirmed
/// pointer, once the settlement-layer sync is done: the client asks to resume
/// from that pointer. If the initial synchronisation was still to be completed,
/// the mempool is first told of the valid tip and marked; if not, the mempool is
/// left alone.
pub proof fn lemma_round_reads_the_store(node: NodeState, client: BlockSyncClient)
    requires
        client.step is Preparing,
        node.store.valid_tip() is Some,
        node.store.last_confirmed is Some,
    ensures
        ({
            let (next, action) = client.step_spec(Event::Done);
            let tip = node.store.valid_tip().unwrap();
            let pointer = node.store.last_confirmed.unwrap();
            node.advanced(next, action) == (
                if client.completed_initial_syncing {
                    node
                } else {
                    NodeState { mem_pool: node.mem_pool.notified(tip.block_hash).completed(), ..node }
                },
                BlockSyncClient { step: Step::Sending, completed_initial_syncing: true },
                Action::Send { request: SyncRequest::resuming_from(pointer) },
            )
        }),
{
    reveal_with_fuel(NodeState::advanced, 6);
}

impl Node {
    /// Carries out `action`, hands what came of it to `client`, and goes on so
    /// with the action that the client issues, up to the first action that is
    /// not the node's to carry out. Returns the client as it then stands, with
    /// that action pending.
    pub fn advance(&mut self, client: BlockSyncClient, action: Action) -> (reached: (
        BlockSyncClient,
        Action,
    ))
        ensures
            (final(self)@, reached.0, reached.1) == old(self)@.advanced(client, action),
    {
        let mut current = client;
        let mut pending = action;
        loop
            invariant
                self@.advanced(current, pending) == old(self)@.advanced(client, action),
            decreases self@.budget(current, pending),
        {
            match self.perform(pending) {
                Some(event) => {
                    let (next, following) = current.step(event);
                    current = next;
                    pending = following;
                },
                None => {
                    return (current, pending);
                },
            }
        }
    }
}

} // verus!
