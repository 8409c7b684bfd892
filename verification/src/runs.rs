//! The client over whole runs: what a handshake sends, that the initial
//! synchronisation is completed once, and when a stream is discarded.

use vstd::prelude::*;
use crate::block_sync_client::{BlockSyncClient, Phase, Step};
use crate::hash::{ChainPointer, H256};
use crate::io::{Action, Event, BACKOFF_SECS};
use crate::message::{SyncError, SyncRequest, SyncResponse};

verus! {

/// The requests among `actions`, in the order in which they were sent.
pub open spec fn requests(actions: Seq<Action>) -> Seq<SyncRequest>
    decreases actions.len(),
{
    if actions.len() == 0 {
        Seq::empty()
    } else {
        match actions.last() {
            Action::Send { request } => requests(actions.drop_last()).push(request),
            _ => requests(actions.drop_last()),
        }
    }
}

/// The delay of each backoff among `actions`, in order.
pub open spec fn delays(actions: Seq<Action>) -> Seq<u64>
    decreases actions.len(),
{
    if actions.len() == 0 {
        Seq::empty()
    } else {
        match actions.last() {
            Action::Backoff { delay_secs, .. } => delays(actions.drop_last()).push(delay_secs),
            _ => delays(actions.drop_last()),
        }
    }
}

/// How often `actions` mark the initial synchronisation as complete.
pub open spec fn marks(actions: Seq<Action>) -> nat
    decreases actions.len(),
{
    if actions.len() == 0 {
        0
    } else if actions.last() is MarkInitialSyncCompleted {
        marks(actions.drop_last()) + 1
    } else {
        marks(actions.drop_last())
    }
}

/// The events of one handshake round in which nothing fails: the settlement-layer
/// sync is done; where the initial synchronisation is still to be completed,
/// `first_sync` is the hash of the valid tip, the mempool is told of it and
/// marked; `pointer` is read as the last confirmed pointer; the request is sent;
/// the peer answers `response`.
pub open spec fn round(
    first_sync: Option<H256>,
    pointer: ChainPointer,
    response: SyncResponse,
) -> Seq<Event> {
    match first_sync {
        Some(hash) => seq![
            Event::Done,
            Event::ValidTip { hash },
            Event::Done,
            Event::Done,
            Event::LastConfirmed { pointer },
            Event::Done,
            Event::Response { response },
        ],
        None => seq![
            Event::Done,
            Event::LastConfirmed { pointer },
            Event::Done,
            Event::Response { response },
        ],
    }
}

/// The events of a handshake in which the peer answers `TryAgain` to every request
/// but the last and `Found` to the last. The store's last confirmed pointer is
/// `pointers[i]` when request `i` is built, and every backoff runs to its end.
pub open spec fn handshake(first_sync: Option<H256>, pointers: Seq<ChainPointer>) -> Seq<Event>
    decreases pointers.len(),
{
    if pointers.len() == 0 {
        Seq::empty()
    } else if pointers.len() == 1 {
        round(first_sync, pointers[0], SyncResponse::Found)
    } else {
        round(first_sync, pointers[0], SyncResponse::TryAgain).push(Event::Done) + handshake(
            None,
            pointers.skip(1),
        )
    }
}

impl BlockSyncClient {
    /// No initial synchronisation is under way on a client that completed it.
    pub open spec fn well_formed(self) -> bool {
        (self.step is ReadingTip || self.step is NotifyingTip) ==> !self.completed_initial_syncing
    }

    /// How often the client may still mark the initial synchronisation as complete.
    pub open spec fn marks_left(self) -> nat {
        if self.completed_initial_syncing || self.step is MarkingSynced {
            0
        } else {
            1
        }
    }
}

/// A run over `events` and then `event` is the run over `events` and one more step.
pub proof fn lemma_run_push(client: BlockSyncClient, events: Seq<Event>, event: Event)
    ensures
        client.run_spec(events.push(event)) == ({
            let (mid, actions) = client.run_spec(events);
            let (end, action) = mid.step_spec(event);
            (end, actions.push(action))
        }),
{
    assert(events.push(event).drop_last() =~= events);
}

/// A run over `first + second` is the run over `first`, continued over `second`.
pub proof fn lemma_run_concat(client: BlockSyncClient, first: Seq<Event>, second: Seq<Event>)
    ensures
        client.run_spec(first + second) == ({
            let (mid, actions) = client.run_spec(first);
            let (end, more) = mid.run_spec(second);
            (end, actions + more)
        }),
    decreases second.len(),
{
    if second.len() > 0 {
        lemma_run_concat(client, first, second.drop_last());
        assert((first + second).drop_last() =~= first + second.drop_last());
    }
}

proof fn lemma_requests_push(actions: Seq<Action>, action: Action)
    ensures
        requests(actions.push(action)) == match action {
            Action::Send { request } => requests(actions).push(request),
            _ => requests(actions),
        },
        delays(actions.push(action)) == match action {
            Action::Backoff { delay_secs, .. } => delays(actions).push(delay_secs),
            _ => delays(actions),
        },
        marks(actions.push(action)) == if action is MarkInitialSyncCompleted {
            marks(actions) + 1
        } else {
            marks(actions)
        },
{
    assert(actions.push(action).drop_last() =~= actions);
}

proof fn lemma_requests_concat(first: Seq<Action>, second: Seq<Action>)
    ensures
        requests(first + second) == requests(first) + requests(second),
        delays(first + second) == delays(first) + delays(second),
    decreases second.len(),
{
    if second.len() > 0 {
        lemma_requests_concat(first, second.drop_last());
        assert((first + second).drop_last() =~= first + second.drop_last());
    }
}

/// One handshake round from its start: the client completes the initial
/// synchronisation where that is due, sends one request, which resumes from
/// `pointer`, and then either streams or backs off once, by the fixed delay.
proof fn lemma_round(
    client: BlockSyncClient,
    first_sync: Option<H256>,
    pointer: ChainPointer,
    response: SyncResponse,
)
    requires
        client.step is Preparing,
        client.completed_initial_syncing <==> first_sync is None,
    ensures
        ({
            let (end, actions) = client.run_spec(round(first_sync, pointer, response));
            &&& end.completed_initial_syncing
            &&& end.step == match response {
                SyncResponse::Found => Step::Receiving,
                SyncResponse::TryAgain => Step::Pausing,
            }
            &&& requests(actions) == seq![SyncRequest::resuming_from(pointer)]
            &&& delays(actions) == match response {
                SyncResponse::Found => Seq::<u64>::empty(),
                SyncResponse::TryAgain => seq![BACKOFF_SECS],
            }
        }),
{
    let none = Seq::<Event>::empty();
    let synced = Event::Done;
    let read = Event::LastConfirmed { pointer };
    let sent = Event::Done;
    let answered = Event::Response { response };
    let request = Action::Send { request: SyncRequest::resuming_from(pointer) };
    let last = match response {
        SyncResponse::Found => Action::Receive,
        SyncResponse::TryAgain => Action::Backoff {
            delay_secs: BACKOFF_SECS,
            drop_stream: false,
            error: None,
        },
    };
    let seen = Seq::<Action>::empty();
    match first_sync {
        Some(hash) => {
            let e1 = none.push(synced);
            let e2 = e1.push(Event::ValidTip { hash });
            let e3 = e2.push(Event::Done);
            let e4 = e3.push(Event::Done);
            let e5 = e4.push(read);
            let e6 = e5.push(sent);
            let e7 = e6.push(answered);
            assert(round(first_sync, pointer, response) =~= e7);
            lemma_run_push(client, none, synced);
            lemma_run_push(client, e1, Event::ValidTip { hash });
            lemma_run_push(client, e2, Event::Done);
            lemma_run_push(client, e3, Event::Done);
            lemma_run_push(client, e4, read);
            lemma_run_push(client, e5, sent);
            lemma_run_push(client, e6, answered);
            let a1 = seen.push(Action::ReadValidTip);
            let a2 = a1.push(Action::NotifyNewTip { hash });
            let a3 = a2.push(Action::MarkInitialSyncCompleted);
            let a4 = a3.push(Action::ReadLastConfirmed);
            let a5 = a4.push(request);
            let a6 = a5.push(Action::Receive);
            let a7 = a6.push(last);
            lemma_requests_push(seen, Action::ReadValidTip);
            lemma_requests_push(a1, Action::NotifyNewTip { hash });
            lemma_requests_push(a2, Action::MarkInitialSyncCompleted);
            lemma_requests_push(a3, Action::ReadLastConfirmed);
            lemma_requests_push(a4, request);
            lemma_requests_push(a5, Action::Receive);
            lemma_requests_push(a6, last);
        },
        None => {
            let e1 = none.push(synced);
            let e2 = e1.push(read);
            let e3 = e2.push(sent);
            let e4 = e3.push(answered);
            assert(round(first_sync, pointer, response) =~= e4);
            lemma_run_push(client, none, synced);
            lemma_run_push(client, e1, read);
            lemma_run_push(client, e2, sent);
            lemma_run_push(client, e3, answered);
            let a1 = seen.push(Action::ReadLastConfirmed);
            let a2 = a1.push(request);
            let a3 = a2.push(Action::Receive);
            let a4 = a3.push(last);
            lemma_requests_push(seen, Action::ReadLastConfirmed);
            lemma_requests_push(a1, request);
            lemma_requests_push(a2, Action::Receive);
            lemma_requests_push(a3, last);
        },
    }
}

/// A handshake in which the peer answers `TryAgain` k times and then `Found`
/// sends exactly k + 1 requests, each of which resumes from the store's last
/// confirmed pointer as it was read for that request, backs off exactly k times,
/// each time by the fixed delay, and ends with the client streaming.
pub proof fn lemma_handshake_requests(
    client: BlockSyncClient,
    first_sync: Option<H256>,
    pointers: Seq<ChainPointer>,
)
    requires
        client.step is Preparing,
        client.completed_initial_syncing <==> first_sync is None,
        pointers.len() > 0,
    ensures
        ({
            let (end, actions) = client.run_spec(handshake(first_sync, pointers));
            &&& end.step is Receiving
            &&& end.completed_initial_syncing
            &&& requests(actions) == pointers.map_values(
                |pointer: ChainPointer| SyncRequest::resuming_from(pointer),
            )
            &&& delays(actions) == Seq::new((pointers.len() - 1) as nat, |i: int| BACKOFF_SECS)
        }),
    decreases pointers.len(),
{
    if pointers.len() == 1 {
        lemma_round(client, first_sync, pointers[0], SyncResponse::Found);
    } else {
        // the first round, the backoff after it, and the rest of the handshake
        let rest = pointers.skip(1);
        let head = round(first_sync, pointers[0], SyncResponse::TryAgain);
        lemma_round(client, first_sync, pointers[0], SyncResponse::TryAgain);
        lemma_run_push(client, head, Event::Done);
        lemma_requests_push(client.run_spec(head).1, Action::SyncL1);
        let (resumed, head_actions) = client.run_spec(head.push(Event::Done));
        lemma_handshake_requests(resumed, None, rest);
        lemma_run_concat(client, head.push(Event::Done), handshake(None, rest));
        lemma_requests_concat(head_actions, resumed.run_spec(handshake(None, rest)).1);
    }
}

/// Over any run of a well-formed client, the initial synchronisation is marked
/// complete as often as the client had left to mark it at the start and has not
/// left at the end: once at most, and never by a client that had completed it.
pub proof fn lemma_initial_sync_marked_once(client: BlockSyncClient, events: Seq<Event>)
    requires
        client.well_formed(),
    ensures
        client.run_spec(events).0.well_formed(),
        marks(client.run_spec(events).1) + client.run_spec(events).0.marks_left()
            == client.marks_left(),
        client.completed_initial_syncing ==> client.run_spec(events).0.completed_initial_syncing,
    decreases events.len(),
{
    if events.len() > 0 {
        lemma_initial_sync_marked_once(client, events.drop_last());
        let (mid, actions) = client.run_spec(events.drop_last());
        let (end, action) = mid.step_spec(events.last());
        lemma_requests_push(actions, action);
    }
}

/// A step orders the stream to be discarded exactly when it takes the client from
/// a phase with a stream to the phase without one, and it names a transport error
/// as the cause. A client without a stream gets one only when the stream source
/// hands one over. Every backoff lasts the fixed delay.
pub proof fn lemma_stream_follows_phase(client: BlockSyncClient, event: Event)
    ensures
        ({
            let (next, action) = client.step_spec(event);
            let dropped = action matches Action::Backoff { drop_stream, .. } && drop_stream;
            &&& dropped <==> client.step.phase() != Phase::NoStream && next.step.phase()
                == Phase::NoStream
            &&& dropped ==> action == (Action::Backoff {
                delay_secs: BACKOFF_SECS,
                drop_stream: true,
                error: Some(SyncError::Transport),
            })
            &&& client.step.phase() == Phase::NoStream && next.step.phase() != Phase::NoStream
                ==> event is StreamReady
            &&& action matches Action::Backoff { delay_secs, .. } ==> delay_secs == BACKOFF_SECS
        }),
{
}

} // verus!
