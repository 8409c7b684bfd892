use block_sync::hash::ChainPointer;
use block_sync::io::{Action, Lock};
use block_sync::message::{LocalBlock, SyncRequest};
use block_sync::stream_source::{Overflow, StreamSource};

#[test]
fn empty_source_has_no_stream() {
    let mut source: StreamSource<u32> = StreamSource::new(Overflow::Reject);
    assert_eq!(source.poll(), None);
    assert_eq!(source.poll(), None);
}

#[test]
fn offered_stream_waits_until_polled() {
    let mut source = StreamSource::new(Overflow::Reject);
    assert_eq!(source.offer("first"), None);
    assert_eq!(source.poll(), Some("first"));
    assert_eq!(source.poll(), None);
    assert_eq!(source.offer("second"), None);
    assert_eq!(source.poll(), Some("second"));
}

#[test]
fn rejecting_source_keeps_the_waiting_stream() {
    let mut source = StreamSource::new(Overflow::Reject);
    assert_eq!(source.offer(1), None);
    assert_eq!(source.offer(2), Some(2));
    assert_eq!(source.offer(3), Some(3));
    assert_eq!(source.poll(), Some(1));
    assert_eq!(source.poll(), None);
}

#[test]
fn replacing_source_keeps_the_newest_stream() {
    let mut source = StreamSource::new(Overflow::Replace);
    assert_eq!(source.offer(1), None);
    assert_eq!(source.offer(2), Some(1));
    assert_eq!(source.offer(3), Some(2));
    assert_eq!(source.poll(), Some(3));
    assert_eq!(source.poll(), None);
    assert_eq!(source.policy, Overflow::Replace);
}

#[test]
fn each_action_needs_at_most_one_lock() {
    let p = ChainPointer { block_number: 1, block_hash: [1; 32] };
    let block = LocalBlock { number: 1, hash: [1; 32], parent_hash: [0; 32] };
    assert_eq!(Action::ApplyBlock { block }.lock(), Some(Lock::Chain));
    assert_eq!(Action::FinalizeCustodians { number: 1 }.lock(), Some(Lock::Chain));
    assert_eq!(Action::NotifyNewTip { hash: [1; 32] }.lock(), Some(Lock::MemPool));
    assert_eq!(Action::MarkInitialSyncCompleted.lock(), Some(Lock::MemPool));
    for action in [
        Action::PollStream,
        Action::SyncL1,
        Action::Backoff { delay_secs: 3, drop_stream: true, error: None },
        Action::ReadValidTip,
        Action::ReadLastConfirmed,
        Action::Send { request: SyncRequest::new(p) },
        Action::Receive,
        Action::OpenScope,
        Action::LookupBlockHash { number: 1 },
        Action::RevertBelow { number: 1 },
        Action::SetSubmitTx { number: 1, tx_id: [2; 32] },
        Action::SetLastSubmitted { pointer: p },
        Action::SetLastConfirmed { pointer: p },
        Action::Commit,
        Action::DiscardScope,
    ] {
        assert_eq!(action.lock(), None);
    }
}
