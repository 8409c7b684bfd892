//! An in-memory mempool, as far as synchronisation touches it: the tip it was
//! last told of, and whether the initial synchronisation was marked complete.

use vstd::prelude::*;
use crate::hash::H256;

verus! {

/// The in-memory mempool.
#[derive(Clone, Copy, Debug, PartialEq, Eq)]
pub struct MemPool {
    /// The hash last passed to [`MemPool::notify_new_tip`].
    pub tip: Option<H256>,
    /// Whether [`MemPool::set_completed_initial_syncing`] was called.
    pub completed_initial_syncing: bool,
}

impl MemPool {
    /// The pool after it was told of the tip `hash`.
    pub open spec fn notified(self, hash: H256) -> MemPool {
        MemPool { tip: Some(hash), ..self }
    }

    /// The pool after the initial synchronisation was marked complete.
    pub open spec fn completed(self) -> MemPool {
        MemPool { completed_initial_syncing: true, ..self }
    }

    /// A pool that was told of no tip yet.
    pub open spec fn fresh() -> MemPool {
        MemPool { tip: None, completed_initial_syncing: false }
    }

    /// A pool that was told of no tip yet.
    pub fn new() -> (pool: MemPool)
        ensures
            pool == MemPool::fresh(),
    {
        MemPool { tip: None, completed_initial_syncing: false }
    }

    /// Tells the pool that the tip is now `hash`. Telling it the same hash again
    /// changes nothing.
    pub fn notify_new_tip(&mut self, hash: H256)
        ensures
            *final(self) == old(self).notified(hash),
    {
        self.tip = Some(hash);
    }

    /// Marks the initial synchronisation as complete.
    pub fn set_completed_initial_syncing(&mut self)
        ensures
            *final(self) == old(self).completed(),
    {
        self.completed_initial_syncing = true;
    }
}

} // verus!
