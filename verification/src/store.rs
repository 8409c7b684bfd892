//! An in-memory chain store: block hashes by number, the settlement transaction
//! recorded for a block number, and the last submitted and last confirmed
//! pointers. The valid tip is the highest block held.

use vstd::prelude::*;
use crate::hash::{hash_eq, ChainPointer, H256};
use crate::message::LocalBlock;

verus! {

/// What a [`ChainStore`] holds, as mathematics.
pub struct StoreState {
    /// The hash of the block at each number, from number 0 up to the valid tip.
    pub chain: Seq<H256>,
    /// The settlement transaction recorded for a block number.
    pub submit_txs: Map<u64, H256>,
    /// The block last submitted to the settlement layer, once one was reported.
    pub last_submitted: Option<ChainPointer>,
    /// The block last confirmed by the settlement layer, once one was reported.
    pub last_confirmed: Option<ChainPointer>,
}

impl StoreState {
    /// A store that holds nothing.
    pub open spec fn empty() -> StoreState {
        StoreState {
            chain: Seq::empty(),
            submit_txs: Map::empty(),
            last_submitted: None,
            last_confirmed: None,
        }
    }

    /// The hash stored at `number`, if a block is held there.
    pub open spec fn block_hash(self, number: u64) -> Option<H256> {
        if number < self.chain.len() {
            Some(self.chain[number as int])
        } else {
            None
        }
    }

    /// The highest block held, if any.
    pub open spec fn valid_tip(self) -> Option<ChainPointer> {
        if self.chain.len() == 0 || self.chain.len() - 1 > u64::MAX {
            None
        } else {
            Some(
                ChainPointer {
                    block_number: (self.chain.len() - 1) as u64,
                    block_hash: self.chain.last(),
                },
            )
        }
    }

    /// Whether `block` extends the chain: it takes the next free number and, unless
    /// it is the first block, names the current tip as its parent.
    pub open spec fn accepts(self, block: LocalBlock) -> bool {
        &&& block.number == self.chain.len()
        &&& self.chain.len() > 0 ==> block.parent_hash == self.chain.last()
    }

    /// The store after `block` was appended.
    pub open spec fn with_block(self, block: LocalBlock) -> StoreState {
        StoreState { chain: self.chain.push(block.hash), ..self }
    }

    /// The store after everything recorded for a block number above `number` was
    /// removed. The submitted and confirmed pointers are left as they are.
    pub open spec fn reverted_below(self, number: u64) -> StoreState {
        StoreState {
            chain: if number < self.chain.len() {
                self.chain.take(number + 1)
            } else {
                self.chain
            },
            submit_txs: self.submit_txs.restrict(Set::new(|n: u64| n <= number)),
            ..self
        }
    }

    /// The store after `tx_id` was recorded as the settlement transaction of `number`.
    pub open spec fn with_submit_tx(self, number: u64, tx_id: H256) -> StoreState {
        StoreState { submit_txs: self.submit_txs.insert(number, tx_id), ..self }
    }

    /// The store after the last submitted pointer was set to `pointer`.
    pub open spec fn with_last_submitted(self, pointer: ChainPointer) -> StoreState {
        StoreState { last_submitted: Some(pointer), ..self }
    }

    /// The store after the last confirmed pointer was set to `pointer`.
    pub open spec fn with_last_confirmed(self, pointer: ChainPointer) -> StoreState {
        StoreState { last_confirmed: Some(pointer), ..self }
    }

    /// The settlement transaction recorded for `number`, if any.
    pub open spec fn submit_tx(self, number: u64) -> Option<H256> {
        if self.submit_txs.contains_key(number) {
            Some(self.submit_txs[number])
        } else {
            None
        }
    }
}

/// One recorded submission.
#[derive(Clone, Copy, Debug)]
struct Submission {
    number: u64,
    tx_id: H256,
}

/// The map that a list of submissions stands for: a later entry replaces an
/// earlier one for the same block number.
spec fn submissions_map(list: Seq<Submission>) -> Map<u64, H256>
    decreases list.len(),
{
    if list.len() == 0 {
        Map::empty()
    } else {
        submissions_map(list.drop_last()).insert(list.last().number, list.last().tx_id)
    }
}

/// The in-memory store.
#[derive(Debug)]
pub struct ChainStore {
    chain: Vec<H256>,
    submissions: Vec<Submission>,
    last_submitted: Option<ChainPointer>,
    last_confirmed: Option<ChainPointer>,
}

impl View for ChainStore {
    type V = StoreState;

    closed spec fn view(&self) -> StoreState {
        StoreState {
            chain: self.chain@,
            submit_txs: submissions_map(self.submissions@),
            last_submitted: self.last_submitted,
            last_confirmed: self.last_confirmed,
        }
    }
}

impl ChainStore {
    /// A store that holds nothing.
    pub fn new() -> (store: ChainStore)
        ensures
            store@ == StoreState::empty(),
    {
        ChainStore {
            chain: Vec::new(),
            submissions: Vec::new(),
            last_submitted: None,
            last_confirmed: None,
        }
    }

    /// The hash stored at `number`, if a block is held there.
    pub fn get_block_hash(&self, number: u64) -> (hash: Option<H256>)
        ensures
            hash == self@.block_hash(number),
    {
        if number < self.chain.len() as u64 {
            Some(self.chain[number as usize])
        } else {
            None
        }
    }

    /// The highest block held, if any.
    pub fn get_valid_tip(&self) -> (tip: Option<ChainPointer>)
        ensures
            tip == self@.valid_tip(),
    {
        let len = self.chain.len();
        if len == 0 {
            None
        } else {
            Some(ChainPointer { block_number: (len - 1) as u64, block_hash: self.chain[len - 1] })
        }
    }

    /// The last submitted pointer, if one was set.
    pub fn get_last_submitted(&self) -> (pointer: Option<ChainPointer>)
        ensures
            pointer == self@.last_submitted,
    {
        self.last_submitted
    }

    /// The last confirmed pointer, if one was set.
    pub fn get_last_confirmed(&self) -> (pointer: Option<ChainPointer>)
        ensures
            pointer == self@.last_confirmed,
    {
        self.last_confirmed
    }

    /// The settlement transaction recorded for `number`, if any.
    pub fn get_submit_tx(&self, number: u64) -> (tx_id: Option<H256>)
        ensures
            tx_id == self@.submit_tx(number),
    {
        let mut i: usize = self.submissions.len();
        assert(self.submissions@.take(i as int) =~= self.submissions@);
        while i > 0
            invariant
                i <= self.submissions.len(),
                self@.submit_tx(number) == (StoreState {
                    submit_txs: submissions_map(self.submissions@.take(i as int)),
                    ..self@
                }).submit_tx(number),
            decreases i,
        {
            let entry = self.submissions[i - 1];
            proof {
                let upto = self.submissions@.take(i as int);
                assert(upto.drop_last() =~= self.submissions@.take(i - 1));
            }
            if entry.number == number {
                return Some(entry.tx_id);
            }
            i = i - 1;
        }
        None
    }

    /// Appends `block` if it extends the chain, and says whether it did.
    pub fn apply_block(&mut self, block: LocalBlock) -> (accepted: bool)
        ensures
            accepted == old(self)@.accepts(block),
            final(self)@ == if accepted {
                old(self)@.with_block(block)
            } else {
                old(self)@
            },
    {
        let len = self.chain.len();
        if block.number != len as u64 {
            return false;
        }
        if len > 0 && !hash_eq(&block.parent_hash, &self.chain[len - 1]) {
            return false;
        }
        self.chain.push(block.hash);
        true
    }

    /// Removes everything recorded for a block number above `number`.
    pub fn revert_below(&mut self, number: u64)
        ensures
            final(self)@ == old(self)@.reverted_below(number),
    {
        if number < self.chain.len() as u64 {
            self.chain.truncate(number as usize + 1);
        }
        let ghost keep = Set::new(|n: u64| n <= number);
        let mut kept: Vec<Submission> = Vec::new();
        let mut i: usize = 0;
        while i < self.submissions.len()
            invariant
                i <= self.submissions.len(),
                keep == Set::new(|n: u64| n <= number),
                submissions_map(kept@) == submissions_map(self.submissions@.take(i as int)).restrict(
                    keep,
                ),
            decreases self.submissions.len() - i,
        {
            let entry = self.submissions[i];
            proof {
                let upto = self.submissions@.take(i + 1);
                assert(upto.drop_last() =~= self.submissions@.take(i as int));
            }
            if entry.number <= number {
                let ghost before = kept@;
                kept.push(entry);
                assert(kept@.drop_last() =~= before);
            }
            i = i + 1;
        }
        assert(self.submissions@.take(i as int) =~= self.submissions@);
        self.submissions = kept;
    }

    /// Records `tx_id` as the settlement transaction of the block at `number`.
    pub fn set_submit_tx(&mut self, number: u64, tx_id: H256)
        ensures
            final(self)@ == old(self)@.with_submit_tx(number, tx_id),
    {
        let ghost before = self.submissions@;
        self.submissions.push(Submission { number, tx_id });
        assert(self.submissions@.drop_last() =~= before);
    }

    /// Sets the last submitted pointer. The pointer is not held against the blocks.
    pub fn set_last_submitted(&mut self, pointer: ChainPointer)
        ensures
            final(self)@ == old(self)@.with_last_submitted(pointer),
    {
        self.last_submitted = Some(pointer);
    }

    /// Sets the last confirmed pointer. The pointer is not held against the blocks.
    pub fn set_last_confirmed(&mut self, pointer: ChainPointer)
        ensures
            final(self)@ == old(self)@.with_last_confirmed(pointer),
    {
        self.last_confirmed = Some(pointer);
    }

    /// A copy of the store, as a mutation scope starts from.
    pub fn snapshot(&self) -> (copy: ChainStore)
        ensures
            copy@ == self@,
    {
        let mut chain: Vec<H256> = Vec::new();
        let mut i: usize = 0;
        while i < self.chain.len()
            invariant
                i <= self.chain.len(),
                chain@ == self.chain@.take(i as int),
            decreases self.chain.len() - i,
        {
            chain.push(self.chain[i]);
            i = i + 1;
        }
        assert(self.chain@.take(i as int) =~= self.chain@);
        let mut submissions: Vec<Submission> = Vec::new();
        let mut j: usize = 0;
        while j < self.submissions.len()
            invariant
                j <= self.submissions.len(),
                submissions@ == self.submissions@.take(j as int),
            decreases self.submissions.len() - j,
        {
            submissions.push(self.submissions[j]);
            j = j + 1;
        }
        assert(self.submissions@.take(j as int) =~= self.submissions@);
        ChainStore {
            chain,
            submissions,
            last_submitted: self.last_submitted,
            last_confirmed: self.last_confirmed,
        }
    }
}

} // verus!
