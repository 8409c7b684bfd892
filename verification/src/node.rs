//! An in-memory node: a chain store, the mutation scope that is open on it, and
//! a mempool. It carries out the store and mempool actions of the client, so
//! that a message can be applied from start to end, and it is what the laws of
//! message application are stated over.

use vstd::prelude::*;
use crate::applier::{Applier, Progress};
use crate::hash::ChainPointer;
use crate::io::{Action, Event};
use crate::mem_pool::MemPool;
use crate::message::{LocalBlock, SyncError, SyncMessage};
use crate::store::{ChainStore, StoreState};

verus! {

/// What a [`Node`] holds, as mathematics.
pub struct NodeState {
    /// The store as readers see it.
    pub store: StoreState,
    /// The open mutation scope: the store as it will be if the scope is committed.
    pub scope: Option<StoreState>,
    /// The mempool.
    pub mem_pool: MemPool,
}

impl NodeState {
    /// The node after `write` was done inside the open scope, with the event that
    /// reports it. Without an open scope the write fails and nothing changes.
    pub open spec fn in_scope(self, write: spec_fn(StoreState) -> StoreState) -> (
        NodeState,
        Option<Event>,
    ) {
        match self.scope {
            Some(staged) => (NodeState { scope: Some(write(staged)), ..self }, Some(Event::Done)),
            None => (self, Some(Event::Failed)),
        }
    }

    /// The node after `action`, with the event that came of it. `None` for an
    /// action that is not the node's to carry out: polling and using the stream,
    /// the settlement-layer sync and the backoff.
    pub open spec fn perform(self, action: Action) -> (NodeState, Option<Event>) {
        match action {
            Action::OpenScope => (
                NodeState { scope: Some(self.store), ..self },
                Some(Event::Done),
            ),
            Action::DiscardScope => (NodeState { scope: None, ..self }, Some(Event::Done)),
            Action::Commit => match self.scope {
                Some(staged) => (
                    NodeState { store: staged, scope: None, ..self },
                    Some(Event::Done),
                ),
                None => (self, Some(Event::Failed)),
            },
            Action::LookupBlockHash { number } => match self.scope {
                Some(staged) => (self, Some(Event::BlockHash { stored: staged.block_hash(number) })),
                None => (self, Some(Event::Failed)),
            },
            Action::RevertBelow { number } => self.in_scope(
                |staged: StoreState| staged.reverted_below(number),
            ),
            Action::ApplyBlock { block } => match self.scope {
                Some(staged) => if staged.accepts(block) {
                    (
                        NodeState { scope: Some(staged.with_block(block)), ..self },
                        Some(Event::Done),
                    )
                } else {
                    (self, Some(Event::Failed))
                },
                None => (self, Some(Event::Failed)),
            },
            Action::FinalizeCustodians { number } => self.in_scope(|staged: StoreState| staged),
            Action::SetSubmitTx { number, tx_id } => self.in_scope(
                |staged: StoreState| staged.with_submit_tx(number, tx_id),
            ),
            Action::SetLastSubmitted { pointer } => self.in_scope(
                |staged: StoreState| staged.with_last_submitted(pointer),
            ),
            Action::SetLastConfirmed { pointer } => self.in_scope(
                |staged: StoreState| staged.with_last_confirmed(pointer),
            ),
            Action::NotifyNewTip { hash } => (
                NodeState { mem_pool: self.mem_pool.notified(hash), ..self },
                Some(Event::Done),
            ),
            Action::MarkInitialSyncCompleted => (
                NodeState { mem_pool: self.mem_pool.completed(), ..self },
                Some(Event::Done),
            ),
            Action::ReadValidTip => match self.store.valid_tip() {
                Some(tip) => (self, Some(Event::ValidTip { hash: tip.block_hash })),
                None => (self, Some(Event::Failed)),
            },
            Action::ReadLastConfirmed => match self.store.last_confirmed {
                Some(pointer) => (self, Some(Event::LastConfirmed { pointer })),
                None => (self, Some(Event::Failed)),
            },
            Action::PollStream => (self, None),
            Action::SyncL1 => (self, None),
            Action::Backoff { .. } => (self, None),
            Action::Send { .. } => (self, None),
            Action::Receive => (self, None),
        }
    }

    /// The node at the end of the run that `progress` is a point of, with the result
    /// of the run: each pending action is carried out on the node and its event
    /// handed to the applier, until the applier finishes.
    pub open spec fn settled(self, progress: Progress) -> (NodeState, Result<(), SyncError>)
        decreases progress.rank(),
    {
        match progress {
            Progress::Finished { result } => (self, result),
            Progress::Next { applier, action } => {
                let (node, event) = self.perform(action);
                let event = match event {
                    Some(event) => event,
                    None => Event::Failed,
                };
                node.settled(applier.step_spec(event))
            },
        }
    }

    /// The node after `message` was applied, with the result.
    ///
    /// - `Revert`: the store is reverted below the target's number, and the mempool
    ///   is told of the target's hash, which is not held against the store.
    /// - `LocalBlock` at a free height: the block is appended if it extends the
    ///   chain, and the mempool is told of its hash; if it does not extend the chain,
    ///   an application error, and nothing changes.
    /// - `LocalBlock` at a taken height: nothing changes; success if the stored
    ///   hash is the block's own, a consistency error if not.
    /// - `Submitted`: the settlement transaction is recorded for the block number
    ///   and the last submitted pointer is set. The mempool is not told.
    /// - `Confirmed`: the last confirmed pointer is set. The mempool is not told.
    ///
    /// No scope is left open.
    pub open spec fn applied(self, message: SyncMessage) -> (NodeState, Result<(), SyncError>) {
        let idle = NodeState { scope: None, ..self };
        match message {
            SyncMessage::Revert { target } => (
                NodeState {
                    store: self.store.reverted_below(target.block_number),
                    scope: None,
                    mem_pool: self.mem_pool.notified(target.block_hash),
                },
                Ok(()),
            ),
            SyncMessage::LocalBlock { block } => match self.store.block_hash(block.number) {
                Some(stored) => if stored == block.hash {
                    (idle, Ok(()))
                } else {
                    (
                        idle,
                        Err(
                            SyncError::Consistency {
                                number: block.number,
                                stored,
                                received: block.hash,
                            },
                        ),
                    )
                },
                None => if self.store.accepts(block) {
                    (
                        NodeState {
                            store: self.store.with_block(block),
                            scope: None,
                            mem_pool: self.mem_pool.notified(block.hash),
                        },
                        Ok(()),
                    )
                } else {
                    (idle, Err(SyncError::Application))
                },
            },
            SyncMessage::Submitted { pointer, settlement_tx_id } => (
                NodeState {
                    store: self.store.with_submit_tx(
                        pointer.block_number,
                        settlement_tx_id,
                    ).with_last_submitted(pointer),
                    ..idle
                },
                Ok(()),
            ),
            SyncMessage::Confirmed { pointer } => (
                NodeState { store: self.store.with_last_confirmed(pointer), ..idle },
                Ok(()),
            ),
        }
    }

    /// The node after each of `blocks` was applied in turn, stopping at the first
    /// that fails, with the result.
    pub open spec fn applied_blocks(self, blocks: Seq<LocalBlock>) -> (
        NodeState,
        Result<(), SyncError>,
    )
        decreases blocks.len(),
    {
        if blocks.len() == 0 {
            (self, Ok(()))
        } else {
            let (node, result) = self.applied_blocks(blocks.drop_last());
            if result is Ok {
                node.applied(SyncMessage::LocalBlock { block: blocks.last() })
            } else {
                (node, result)
            }
        }
    }
}

/// Whether `blocks` form a chain that grows from `tip`: the numbers rise by one
/// from the number after the tip's, and each block names its predecessor, the
/// first one the tip, as its parent.
pub open spec fn extends(tip: ChainPointer, blocks: Seq<LocalBlock>) -> bool {
    &&& forall|i: int|
        0 <= i < blocks.len() ==> (#[trigger] blocks[i]).number == tip.block_number + 1 + i
    &&& blocks.len() > 0 ==> blocks[0].parent_hash == tip.block_hash
    &&& forall|i: int|
        0 < i < blocks.len() ==> (#[trigger] blocks[i]).parent_hash == blocks[i - 1].hash
}

/// Carrying a message through the applier on the node, step by step, ends where
/// [`NodeState::applied`] says.
pub proof fn lemma_run_is_applied(node: NodeState, message: SyncMessage)
    ensures
        node.settled(Applier::start_spec(message)) == node.applied(message),
{
    reveal_with_fuel(NodeState::settled, 8);
}

/// A run of blocks that grows from the valid tip is applied without failure, and
/// the valid tip is then the pointer of the last block.
pub proof fn lemma_blocks_advance_tip(node: NodeState, tip: ChainPointer, blocks: Seq<LocalBlock>)
    requires
        node.store.valid_tip() == Some(tip),
        extends(tip, blocks),
        blocks.len() > 0,
    ensures
        node.applied_blocks(blocks).1 is Ok,
        node.applied_blocks(blocks).0.store.valid_tip() == Some(blocks.last().pointer()),
        node.applied_blocks(blocks).0.store.chain == node.store.chain + blocks.map_values(
            |b: LocalBlock| b.hash,
        ),
    decreases blocks.len(),
{
    let front = blocks.drop_last();
    let last = blocks.last();
    if front.len() > 0 {
        assert(extends(tip, front));
        lemma_blocks_advance_tip(node, tip, front);
        assert(front.last() == blocks[blocks.len() - 2]);
    }
    // the last block takes the next free number, under the tip reached so far
    let before = node.applied_blocks(front).0;
    assert(before.store.accepts(last));
    assert(before.store.chain.push(last.hash) =~= node.store.chain + blocks.map_values(
        |b: LocalBlock| b.hash,
    ));
}

/// A block that is delivered again, at a height where the store holds its hash,
/// changes neither the store nor the mempool, and is no error.
pub proof fn lemma_redelivery_is_noop(node: NodeState, block: LocalBlock)
    requires
        node.store.block_hash(block.number) == Some(block.hash),
    ensures
        node.applied(SyncMessage::LocalBlock { block }).1 is Ok,
        node.applied(SyncMessage::LocalBlock { block }).0.store == node.store,
        node.applied(SyncMessage::LocalBlock { block }).0.mem_pool == node.mem_pool,
{
}

/// A block delivered at a height where the store holds another hash is refused
/// with a consistency error, and changes neither the store nor the mempool.
pub proof fn lemma_conflict_is_refused(node: NodeState, block: LocalBlock)
    requires
        node.store.block_hash(block.number) is Some,
        node.store.block_hash(block.number) != Some(block.hash),
    ensures
        node.applied(SyncMessage::LocalBlock { block }).1 == Err::<(), SyncError>(
            SyncError::Consistency {
                number: block.number,
                stored: node.store.block_hash(block.number).unwrap(),
                received: block.hash,
            },
        ),
        node.applied(SyncMessage::LocalBlock { block }).0.store == node.store,
        node.applied(SyncMessage::LocalBlock { block }).0.mem_pool == node.mem_pool,
{
}

/// After a revert to `target`, the valid tip is at the target's number or below,
/// and the store holds no block and no settlement transaction above that number.
pub proof fn lemma_revert_bounds_store(node: NodeState, target: ChainPointer)
    ensures
        node.applied(SyncMessage::Revert { target }).1 is Ok,
        match node.applied(SyncMessage::Revert { target }).0.store.valid_tip() {
            Some(tip) => tip.block_number <= target.block_number,
            None => true,
        },
        forall|number: u64|
            number > target.block_number ==> node.applied(
                SyncMessage::Revert { target },
            ).0.store.block_hash(number) is None,
        forall|number: u64|
            number > target.block_number ==> node.applied(
                SyncMessage::Revert { target },
            ).0.store.submit_tx(number) is None,
        forall|number: u64|
            number <= target.block_number ==> node.applied(
                SyncMessage::Revert { target },
            ).0.store.block_hash(number) == node.store.block_hash(number),
{
}

/// A message that was applied can be applied once more without harm: the second
/// application succeeds and leaves the node as the first left it.
pub proof fn lemma_retry_is_harmless(node: NodeState, message: SyncMessage)
    requires
        node.applied(message).1 is Ok,
    ensures
        node.applied(message).0.applied(message) == (node.applied(message).0, Ok::<(), SyncError>(())),
{
    let once = node.applied(message).0;
    let twice = once.applied(message).0;
    match message {
        SyncMessage::Revert { target } => {
            let number = target.block_number;
            assert(once.store.reverted_below(number).chain =~= once.store.chain);
            assert(once.store.reverted_below(number).submit_txs =~= once.store.submit_txs);
        },
        SyncMessage::LocalBlock { block } => {},
        SyncMessage::Submitted { pointer, settlement_tx_id } => {
            assert(twice.store.submit_txs =~= once.store.submit_txs);
        },
        SyncMessage::Confirmed { pointer } => {},
    }
}

/// The in-memory node.
#[derive(Debug)]
pub struct Node {
    /// The store as readers see it.
    pub store: ChainStore,
    /// The open mutation scope, if any: a copy of the store that takes the writes.
    pub scope: Option<ChainStore>,
    /// The mempool.
    pub mem_pool: MemPool,
}

impl View for Node {
    type V = NodeState;

    open spec fn view(&self) -> NodeState {
        NodeState {
            store: self.store@,
            scope: match self.scope {
                Some(staged) => Some(staged@),
                None => None,
            },
            mem_pool: self.mem_pool,
        }
    }
}

impl Node {
    /// A node around `store`, with no scope open and a mempool that was told nothing.
    pub fn new(store: ChainStore) -> (node: Node)
        ensures
            node@ == (NodeState { store: store@, scope: None, mem_pool: MemPool::fresh() }),
    {
        Node { store, scope: None, mem_pool: MemPool::new() }
    }

    /// Carries out `action` and returns the event that came of it; `None`, and
    /// nothing done, for an action that is not the node's to carry out.
    pub fn perform(&mut self, action: Action) -> (event: Option<Event>)
        ensures
            (final(self)@, event) == old(self)@.perform(action),
    {
        match action {
            Action::OpenScope => {
                self.scope = Some(self.store.snapshot());
                Some(Event::Done)
            },
            Action::DiscardScope => {
                self.scope = None;
                Some(Event::Done)
            },
            Action::Commit => match self.scope.take() {
                Some(staged) => {
                    self.store = staged;
                    Some(Event::Done)
                },
                None => Some(Event::Failed),
            },
            Action::LookupBlockHash { number } => match &self.scope {
                Some(staged) => Some(Event::BlockHash { stored: staged.get_block_hash(number) }),
                None => Some(Event::Failed),
            },
            Action::RevertBelow { number } => match self.scope.take() {
                Some(staged) => {
                    let mut staged = staged;
                    staged.revert_below(number);
                    self.scope = Some(staged);
                    Some(Event::Done)
                },
                None => Some(Event::Failed),
            },
            Action::ApplyBlock { block } => match self.scope.take() {
                Some(staged) => {
                    let mut staged = staged;
                    let accepted = staged.apply_block(block);
                    self.scope = Some(staged);
                    if accepted {
                        Some(Event::Done)
                    } else {
                        Some(Event::Failed)
                    }
                },
                None => Some(Event::Failed),
            },
            Action::FinalizeCustodians { number } => match &self.scope {
                Some(_) => Some(Event::Done),
                None => Some(Event::Failed),
            },
            Action::SetSubmitTx { number, tx_id } => match self.scope.take() {
                Some(staged) => {
                    let mut staged = staged;
                    staged.set_submit_tx(number, tx_id);
                    self.scope = Some(staged);
                    Some(Event::Done)
                },
                None => Some(Event::Failed),
            },
            Action::SetLastSubmitted { pointer } => match self.scope.take() {
                Some(staged) => {
                    let mut staged = staged;
                    staged.set_last_submitted(pointer);
                    self.scope = Some(staged);
                    Some(Event::Done)
                },
                None => Some(Event::Failed),
            },
            Action::SetLastConfirmed { pointer } => match self.scope.take() {
                Some(staged) => {
                    let mut staged = staged;
                    staged.set_last_confirmed(pointer);
                    self.scope = Some(staged);
                    Some(Event::Done)
                },
                None => Some(Event::Failed),
            },
            Action::NotifyNewTip { hash } => {
                self.mem_pool.notify_new_tip(hash);
                Some(Event::Done)
            },
            Action::MarkInitialSyncCompleted => {
                self.mem_pool.set_completed_initial_syncing();
                Some(Event::Done)
            },
            Action::ReadValidTip => match self.store.get_valid_tip() {
                Some(tip) => Some(Event::ValidTip { hash: tip.block_hash }),
                None => Some(Event::Failed),
            },
            Action::ReadLastConfirmed => match self.store.get_last_confirmed() {
                Some(pointer) => Some(Event::LastConfirmed { pointer }),
                None => Some(Event::Failed),
            },
            Action::PollStream => None,
            Action::SyncL1 => None,
            Action::Backoff { .. } => None,
            Action::Send { .. } => None,
            Action::Receive => None,
        }
    }

    /// Applies one message of the stream to the store and the mempool.
    ///
    /// A failure leaves the store as it was. A message whose effect is already
    /// in the store can be applied again without harm.
    pub fn apply_msg(&mut self, message: SyncMessage) -> (result: Result<(), SyncError>)
        ensures
            (final(self)@, result) == old(self)@.applied(message),
    {
        let mut progress = Applier::start(message);
        proof {
            lemma_run_is_applied(old(self)@, message);
        }
        loop
            invariant
                self@.settled(progress) == old(self)@.applied(message),
            decreases progress.rank(),
        {
            match progress {
                Progress::Finished { result } => {
                    return result;
                },
                Progress::Next { applier, action } => {
                    let event = match self.perform(action) {
                        Some(event) => event,
                        None => Event::Failed,
                    };
                    proof {
                        applier.lemma_step_decreases(event);
                    }
                    progress = applier.step(event);
                },
            }
        }
    }
}

} // verus!
