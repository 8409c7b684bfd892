//! The stream source: the single slot in which a newly established stream waits
//! until the client polls for it. The client holds the active stream itself, so
//! one stream can be active and one waiting; what becomes of a further one is a
//! matter of policy.

use vstd::prelude::*;

verus! {

/// What becomes of a stream that arrives while another one waits.
#[derive(Clone, Copy, Debug, PartialEq, Eq)]
pub enum Overflow {
    /// The waiting stream stays; the arriving one is turned away.
    Reject,
    /// The arriving stream takes the slot; the waiting one is turned away.
    Replace,
}

/// A slot for one waiting stream of type `S`.
pub struct StreamSource<S> {
    /// The stream that waits, if any.
    pub waiting: Option<S>,
    /// What becomes of a stream that arrives while another one waits.
    pub policy: Overflow,
}

impl<S> StreamSource<S> {
    /// An empty slot with the given policy.
    pub fn new(policy: Overflow) -> (source: StreamSource<S>)
        ensures
            source.waiting is None,
            source.policy == policy,
    {
        StreamSource { waiting: None, policy }
    }

    /// Puts a newly established stream into the slot. Returns the stream that is
    /// turned away, for the caller to close: none if the slot was free, else the
    /// arriving or the waiting one, as the policy says.
    pub fn offer(&mut self, stream: S) -> (turned_away: Option<S>)
        ensures
            final(self).policy == old(self).policy,
            (final(self).waiting, turned_away) == match (old(self).waiting, old(self).policy) {
                (None, _) => (Some(stream), None::<S>),
                (Some(waiting), Overflow::Reject) => (Some(waiting), Some(stream)),
                (Some(waiting), Overflow::Replace) => (Some(stream), Some(waiting)),
            },
    {
        match self.waiting.take() {
            None => {
                self.waiting = Some(stream);
                None
            },
            Some(waiting) => match self.policy {
                Overflow::Reject => {
                    self.waiting = Some(waiting);
                    Some(stream)
                },
                Overflow::Replace => {
                    self.waiting = Some(stream);
                    Some(waiting)
                },
            },
        }
    }

    /// Takes the waiting stream out of the slot, if there is one, without blocking.
    pub fn poll(&mut self) -> (stream: Option<S>)
        ensures
            stream == old(self).waiting,
            final(self).waiting is None,
            final(self).policy == old(self).policy,
    {
        self.waiting.take()
    }
}

} // verus!
