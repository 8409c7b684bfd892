//! The sync orchestrator: which channel the node follows, the handshake with a
//! peer, and the routing of stream messages to the applier.
//!
//! Without a stream the client syncs from the settlement layer and polls for a
//! stream after every backoff. With a stream it syncs from the settlement layer
//! once more, completes the initial synchronisation if that is still to be done,
//! and sends requests until the peer answers `Found`; from then on it applies
//! every message it receives. A transport failure costs the stream; any other
//! failure is retried on the same stream after the backoff.

use vstd::prelude::*;
use crate::applier::{Applier, Progress};
use crate::io::{Action, Event, BACKOFF_SECS};
use crate::message::{SyncError, SyncRequest, SyncResponse};

verus! {

/// The three logical states of the client.
#[derive(Clone, Copy, Debug, PartialEq, Eq)]
pub enum Phase {
    /// No stream is active: the node follows the settlement layer.
    NoStream,
    /// A stream is active and the starting point is being negotiated.
    Handshaking,
    /// The peer confirmed the starting point: messages are applied as they come.
    Streaming,
}

/// Where the client stands: the action that was issued last.
#[derive(Clone, Copy, Debug, PartialEq, Eq)]
pub enum Step {
    /// `PollStream` was issued.
    Polling,
    /// `SyncL1` was issued, without a stream.
    SyncingL1,
    /// `Backoff` was issued, without a stream or with the order to discard it.
    Resting,
    /// `SyncL1` was issued, with a stream: a handshake round begins.
    Preparing,
    /// `ReadValidTip` was issued.
    ReadingTip,
    /// `NotifyNewTip` was issued for the initial synchronisation.
    NotifyingTip,
    /// `MarkInitialSyncCompleted` was issued.
    MarkingSynced,
    /// `ReadLastConfirmed` was issued.
    ReadingConfirmed,
    /// `Send` was issued.
    Sending,
    /// `Receive` was issued for the answer to a request.
    AwaitingResponse,
    /// `Backoff` was issued, and the stream is kept.
    Pausing,
    /// `Receive` was issued for the next message of the stream.
    Receiving,
    /// An action of the applier was issued.
    Applying { applier: Applier },
}

/// The state of the sync orchestrator.
#[derive(Clone, Copy, Debug, PartialEq, Eq)]
pub struct BlockSyncClient {
    /// Where the client stands.
    pub step: Step,
    /// Whether the mempool was told of the tip and marked as initially synced.
    /// Set once, never cleared.
    pub completed_initial_syncing: bool,
}

impl Step {
    /// The logical state that the step belongs to.
    pub open spec fn phase(self) -> Phase {
        match self {
            Step::Polling | Step::SyncingL1 | Step::Resting => Phase::NoStream,
            Step::Receiving | Step::Applying { .. } => Phase::Streaming,
            _ => Phase::Handshaking,
        }
    }
}

/// The backoff, with what precedes it.
pub open spec fn backoff(drop_stream: bool, error: Option<SyncError>) -> Action {
    Action::Backoff { delay_secs: BACKOFF_SECS, drop_stream, error }
}

impl BlockSyncClient {
    /// A client that never ran: it has no stream and is about to poll for one.
    pub open spec fn initial() -> BlockSyncClient {
        BlockSyncClient { step: Step::Polling, completed_initial_syncing: false }
    }

    /// The same client at another step.
    pub open spec fn at(self, step: Step) -> BlockSyncClient {
        BlockSyncClient { step, ..self }
    }

    /// The stream is lost: it is discarded, and after the backoff the client polls.
    pub open spec fn disconnect(self) -> (BlockSyncClient, Action) {
        (self.at(Step::Resting), backoff(true, Some(SyncError::Transport)))
    }

    /// The cycle is over and the stream is kept: after the backoff a handshake
    /// round begins.
    pub open spec fn retry(self, error: Option<SyncError>) -> (BlockSyncClient, Action) {
        (self.at(Step::Pausing), backoff(false, error))
    }

    /// The client after a step of the applier: it issues the applier's action, or,
    /// at the end of the run, receives the next message or retries.
    pub open spec fn follow(self, progress: Progress) -> (BlockSyncClient, Action) {
        match progress {
            Progress::Next { applier, action } => (self.at(Step::Applying { applier }), action),
            Progress::Finished { result } => match result {
                Ok(_) => (self.at(Step::Receiving), Action::Receive),
                Err(error) => self.retry(Some(error)),
            },
        }
    }

    /// The client after `event`, and the action it issues. An event other than
    /// those named for a step counts as a failure of the pending action: of the
    /// transport where the action was to send or to receive, of the application
    /// elsewhere.
    pub open spec fn step_spec(self, event: Event) -> (BlockSyncClient, Action) {
        match self.step {
            Step::Polling => if event is StreamReady {
                (self.at(Step::Preparing), Action::SyncL1)
            } else {
                (self.at(Step::SyncingL1), Action::SyncL1)
            },
            Step::SyncingL1 => (
                self.at(Step::Resting),
                backoff(
                    false,
                    if event is Done {
                        None
                    } else {
                        Some(SyncError::Application)
                    },
                ),
            ),
            Step::Resting => (self.at(Step::Polling), Action::PollStream),
            Step::Preparing => if event is Done {
                if self.completed_initial_syncing {
                    (self.at(Step::ReadingConfirmed), Action::ReadLastConfirmed)
                } else {
                    (self.at(Step::ReadingTip), Action::ReadValidTip)
                }
            } else {
                self.retry(Some(SyncError::Application))
            },
            Step::ReadingTip => match event {
                Event::ValidTip { hash } => (
                    self.at(Step::NotifyingTip),
                    Action::NotifyNewTip { hash },
                ),
                _ => self.retry(Some(SyncError::Application)),
            },
            Step::NotifyingTip => if event is Done {
                (self.at(Step::MarkingSynced), Action::MarkInitialSyncCompleted)
            } else {
                self.retry(Some(SyncError::Application))
            },
            Step::MarkingSynced => (
                BlockSyncClient { step: Step::ReadingConfirmed, completed_initial_syncing: true },
                Action::ReadLastConfirmed,
            ),
            Step::ReadingConfirmed => match event {
                Event::LastConfirmed { pointer } => (
                    self.at(Step::Sending),
                    Action::Send { request: SyncRequest::resuming_from(pointer) },
                ),
                _ => self.retry(Some(SyncError::Application)),
            },
            Step::Sending => if event is Done {
                (self.at(Step::AwaitingResponse), Action::Receive)
            } else {
                self.disconnect()
            },
            Step::AwaitingResponse => match event {
                Event::Response { response: SyncResponse::Found } => (
                    self.at(Step::Receiving),
                    Action::Receive,
                ),
                Event::Response { response: SyncResponse::TryAgain } => self.retry(None),
                _ => self.disconnect(),
            },
            Step::Pausing => (self.at(Step::Preparing), Action::SyncL1),
            Step::Receiving => match event {
                Event::Message { message } => self.follow(Applier::start_spec(message)),
                Event::EndOfStream => self.retry(None),
                _ => self.disconnect(),
            },
            Step::Applying { applier } => self.follow(applier.step_spec(event)),
        }
    }

    /// The client after `events`, one after the other, and the actions it issued.
    pub open spec fn run_spec(self, events: Seq<Event>) -> (BlockSyncClient, Seq<Action>)
        decreases events.len(),
    {
        if events.len() == 0 {
            (self, Seq::empty())
        } else {
            let (client, actions) = self.run_spec(events.drop_last());
            let (client, action) = client.step_spec(events.last());
            (client, actions.push(action))
        }
    }

    /// Starts a client: it has no stream, and its first action is to poll for one.
    pub fn start() -> (started: (BlockSyncClient, Action))
        ensures
            started == (BlockSyncClient::initial(), Action::PollStream),
    {
        (BlockSyncClient { step: Step::Polling, completed_initial_syncing: false }, Action::PollStream)
    }

    /// The logical state of the client.
    pub fn phase(&self) -> (phase: Phase)
        ensures
            phase == self.step.phase(),
    {
        match self.step {
            Step::Polling | Step::SyncingL1 | Step::Resting => Phase::NoStream,
            Step::Receiving | Step::Applying { .. } => Phase::Streaming,
            _ => Phase::Handshaking,
        }
    }

    /// Takes the event that came of the pending action, and returns the client
    /// after it with the action to carry out next.
    pub fn step(self, event: Event) -> (next: (BlockSyncClient, Action))
        ensures
            next == self.step_spec(event),
    {
        let done = match event {
            Event::Done => true,
            _ => false,
        };
        match self.step {
            Step::Polling => match event {
                Event::StreamReady => (self.moved(Step::Preparing), Action::SyncL1),
                _ => (self.moved(Step::SyncingL1), Action::SyncL1),
            },
            Step::SyncingL1 => {
                let error = if done {
                    None
                } else {
                    Some(SyncError::Application)
                };
                (
                    self.moved(Step::Resting),
                    Action::Backoff { delay_secs: BACKOFF_SECS, drop_stream: false, error },
                )
            },
            Step::Resting => (self.moved(Step::Polling), Action::PollStream),
            Step::Preparing => if !done {
                self.retrying(Some(SyncError::Application))
            } else if self.completed_initial_syncing {
                (self.moved(Step::ReadingConfirmed), Action::ReadLastConfirmed)
            } else {
                (self.moved(Step::ReadingTip), Action::ReadValidTip)
            },
            Step::ReadingTip => match event {
                Event::ValidTip { hash } => (
                    self.moved(Step::NotifyingTip),
                    Action::NotifyNewTip { hash },
                ),
                _ => self.retrying(Some(SyncError::Application)),
            },
            Step::NotifyingTip => if done {
                (self.moved(Step::MarkingSynced), Action::MarkInitialSyncCompleted)
            } else {
                self.retrying(Some(SyncError::Application))
            },
            Step::MarkingSynced => (
                BlockSyncClient { step: Step::ReadingConfirmed, completed_initial_syncing: true },
                Action::ReadLastConfirmed,
            ),
            Step::ReadingConfirmed => match event {
                Event::LastConfirmed { pointer } => (
                    self.moved(Step::Sending),
                    Action::Send { request: SyncRequest::new(pointer) },
                ),
                _ => self.retrying(Some(SyncError::Application)),
            },
            Step::Sending => if done {
                (self.moved(Step::AwaitingResponse), Action::Receive)
            } else {
                self.disconnecting()
            },
            Step::AwaitingResponse => match event {
                Event::Response { response: SyncResponse::Found } => (
                    self.moved(Step::Receiving),
                    Action::Receive,
                ),
                Event::Response { response: SyncResponse::TryAgain } => self.retrying(None),
                _ => self.disconnecting(),
            },
            Step::Pausing => (self.moved(Step::Preparing), Action::SyncL1),
            Step::Receiving => match event {
                Event::Message { message } => self.following(Applier::start(message)),
                Event::EndOfStream => self.retrying(None),
                _ => self.disconnecting(),
            },
            Step::Applying { applier } => self.following(applier.step(event)),
        }
    }

    /// Replays `events` on the client, one after the other, and returns the client
    /// after the last with the actions it issued, one for each event.
    pub fn run(self, events: &[Event]) -> (ran: (BlockSyncClient, Vec<Action>))
        ensures
            (ran.0, ran.1@) == self.run_spec(events@),
    {
        let mut client = self;
        let mut actions: Vec<Action> = Vec::new();
        let mut i: usize = 0;
        while i < events.len()
            invariant
                i <= events.len(),
                (client, actions@) == self.run_spec(events@.take(i as int)),
            decreases events.len() - i,
        {
            let (next, action) = client.step(events[i]);
            proof {
                let upto = events@.take(i + 1);
                assert(upto.drop_last() =~= events@.take(i as int));
            }
            client = next;
            actions.push(action);
            i = i + 1;
        }
        assert(events@.take(i as int) =~= events@);
        (client, actions)
    }

    fn moved(self, step: Step) -> (client: BlockSyncClient)
        ensures
            client == self.at(step),
    {
        BlockSyncClient { step, completed_initial_syncing: self.completed_initial_syncing }
    }

    fn retrying(self, error: Option<SyncError>) -> (next: (BlockSyncClient, Action))
        ensures
            next == self.retry(error),
    {
        (
            self.moved(Step::Pausing),
            Action::Backoff { delay_secs: BACKOFF_SECS, drop_stream: false, error },
        )
    }

    fn disconnecting(self) -> (next: (BlockSyncClient, Action))
        ensures
            next == self.disconnect(),
    {
        (
            self.moved(Step::Resting),
            Action::Backoff {
                delay_secs: BACKOFF_SECS,
                drop_stream: true,
                error: Some(SyncError::Transport),
            },
        )
    }

    fn following(self, progress: Progress) -> (next: (BlockSyncClient, Action))
        ensures
            next == self.follow(progress),
    {
        match progress {
            Progress::Next { applier, action } => (self.moved(Step::Applying { applier }), action),
            Progress::Finished { result } => match result {
                Ok(_) => (self.moved(Step::Receiving), Action::Receive),
                Err(error) => self.retrying(Some(error)),
            },
        }
    }
}

} // verus!
