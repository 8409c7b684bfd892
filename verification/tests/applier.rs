use block_sync::applier::{Applier, Progress};
use block_sync::hash::ChainPointer;
use block_sync::io::{Action, Event};
use block_sync::message::{LocalBlock, SyncError, SyncMessage};

fn h(seed: u8) -> [u8; 32] {
    [seed; 32]
}

/// Runs the applier over `events` and returns the actions it issued and its result, if it
/// finished.
fn actions_of(
    message: SyncMessage,
    events: &[Event],
) -> (Vec<Action>, Option<Result<(), SyncError>>) {
    let mut actions = Vec::new();
    let mut progress = Applier::start(message);
    let mut events = events.iter();
    loop {
        match progress {
            Progress::Finished { result } => return (actions, Some(result)),
            Progress::Next { applier, action } => {
                actions.push(action);
                match events.next() {
                    Some(event) => progress = applier.step(*event),
                    None => return (actions, None),
                }
            }
        }
    }
}

#[test]
fn revert_runs_revert_commit_notify() {
    let target = ChainPointer { block_number: 7, block_hash: h(7) };
    let (actions, result) =
        actions_of(SyncMessage::Revert { target }, &[Event::Done, Event::Done, Event::Done, Event::Done]);
    assert_eq!(
        actions,
        vec![
            Action::OpenScope,
            Action::RevertBelow { number: 7 },
            Action::Commit,
            Action::NotifyNewTip { hash: h(7) },
        ]
    );
    assert_eq!(result, Some(Ok(())));
}

#[test]
fn local_block_at_free_height_is_applied_finalized_committed_notified() {
    let block = LocalBlock { number: 11, hash: h(11), parent_hash: h(10) };
    let (actions, result) = actions_of(
        SyncMessage::LocalBlock { block },
        &[
            Event::Done,
            Event::BlockHash { stored: None },
            Event::Done,
            Event::Done,
            Event::Done,
            Event::Done,
        ],
    );
    assert_eq!(
        actions,
        vec![
            Action::OpenScope,
            Action::LookupBlockHash { number: 11 },
            Action::ApplyBlock { block },
            Action::FinalizeCustodians { number: 11 },
            Action::Commit,
            Action::NotifyNewTip { hash: h(11) },
        ]
    );
    assert_eq!(result, Some(Ok(())));
}

#[test]
fn local_block_with_stored_hash_writes_nothing() {
    let block = LocalBlock { number: 11, hash: h(11), parent_hash: h(10) };
    let (actions, result) = actions_of(
        SyncMessage::LocalBlock { block },
        &[Event::Done, Event::BlockHash { stored: Some(h(11)) }, Event::Done],
    );
    assert_eq!(
        actions,
        vec![Action::OpenScope, Action::LookupBlockHash { number: 11 }, Action::DiscardScope]
    );
    assert_eq!(result, Some(Ok(())));
}

#[test]
fn local_block_against_other_hash_is_a_consistency_error() {
    let block = LocalBlock { number: 11, hash: h(11), parent_hash: h(10) };
    let (actions, result) = actions_of(
        SyncMessage::LocalBlock { block },
        &[Event::Done, Event::BlockHash { stored: Some(h(99)) }, Event::Done],
    );
    assert_eq!(
        actions,
        vec![Action::OpenScope, Action::LookupBlockHash { number: 11 }, Action::DiscardScope]
    );
    assert_eq!(
        result,
        Some(Err(SyncError::Consistency { number: 11, stored: h(99), received: h(11) }))
    );
}

#[test]
fn submitted_records_tx_then_pointer_and_does_not_notify() {
    let pointer = ChainPointer { block_number: 4, block_hash: h(4) };
    let (actions, result) = actions_of(
        SyncMessage::Submitted { pointer, settlement_tx_id: h(0x44) },
        &[Event::Done, Event::Done, Event::Done, Event::Done],
    );
    assert_eq!(
        actions,
        vec![
            Action::OpenScope,
            Action::SetSubmitTx { number: 4, tx_id: h(0x44) },
            Action::SetLastSubmitted { pointer },
            Action::Commit,
        ]
    );
    assert_eq!(result, Some(Ok(())));
}

#[test]
fn confirmed_sets_pointer_and_does_not_notify() {
    let pointer = ChainPointer { block_number: 4, block_hash: h(4) };
    let (actions, result) =
        actions_of(SyncMessage::Confirmed { pointer }, &[Event::Done, Event::Done, Event::Done]);
    assert_eq!(
        actions,
        vec![Action::OpenScope, Action::SetLastConfirmed { pointer }, Action::Commit]
    );
    assert_eq!(result, Some(Ok(())));
}

#[test]
fn failure_before_commit_discards_the_scope() {
    let block = LocalBlock { number: 3, hash: h(3), parent_hash: h(2) };
    let message = SyncMessage::LocalBlock { block };
    let lookup = Event::BlockHash { stored: None };
    // the failure comes one action later in each run
    let runs: Vec<Vec<Event>> = vec![
        vec![Event::Failed, Event::Done],
        vec![Event::Done, Event::Failed, Event::Done],
        vec![Event::Done, lookup, Event::Failed, Event::Done],
        vec![Event::Done, lookup, Event::Done, Event::Failed, Event::Done],
        vec![Event::Done, lookup, Event::Done, Event::Done, Event::Failed, Event::Done],
    ];
    for events in runs {
        let (actions, result) = actions_of(message, &events);
        assert_eq!(actions.last(), Some(&Action::DiscardScope));
        assert_eq!(actions.len(), events.len());
        assert!(!actions.contains(&Action::NotifyNewTip { hash: h(3) }));
        assert_eq!(result, Some(Err(SyncError::Application)));
    }
}

#[test]
fn failure_of_the_notification_comes_after_the_commit() {
    let target = ChainPointer { block_number: 7, block_hash: h(7) };
    let (actions, result) = actions_of(
        SyncMessage::Revert { target },
        &[Event::Done, Event::Done, Event::Done, Event::Failed],
    );
    assert_eq!(actions[2], Action::Commit);
    assert_eq!(actions.len(), 4);
    assert!(!actions.contains(&Action::DiscardScope));
    assert_eq!(result, Some(Err(SyncError::Application)));
}

#[test]
fn failure_in_submitted_and_confirmed_discards_the_scope() {
    let pointer = ChainPointer { block_number: 4, block_hash: h(4) };
    let (actions, result) = actions_of(
        SyncMessage::Submitted { pointer, settlement_tx_id: h(1) },
        &[Event::Done, Event::Done, Event::Failed, Event::Done],
    );
    assert_eq!(actions.last(), Some(&Action::DiscardScope));
    assert!(!actions.contains(&Action::Commit));
    assert_eq!(result, Some(Err(SyncError::Application)));
    let (actions, result) = actions_of(
        SyncMessage::Confirmed { pointer },
        &[Event::Done, Event::Done, Event::Failed, Event::Done],
    );
    assert_eq!(
        actions,
        vec![
            Action::OpenScope,
            Action::SetLastConfirmed { pointer },
            Action::Commit,
            Action::DiscardScope
        ]
    );
    assert_eq!(result, Some(Err(SyncError::Application)));
}

#[test]
fn an_event_that_answers_nothing_counts_as_failure() {
    let block = LocalBlock { number: 3, hash: h(3), parent_hash: h(2) };
    // the lookup is answered with `Done` instead of a block hash
    let (actions, result) =
        actions_of(SyncMessage::LocalBlock { block }, &[Event::Done, Event::Done, Event::Done]);
    assert_eq!(actions.last(), Some(&Action::DiscardScope));
    assert_eq!(result, Some(Err(SyncError::Application)));
    // the revert is answered with a stream event
    let target = ChainPointer { block_number: 1, block_hash: h(1) };
    let (actions, result) = actions_of(
        SyncMessage::Revert { target },
        &[Event::Done, Event::EndOfStream, Event::Done],
    );
    assert_eq!(
        actions,
        vec![Action::OpenScope, Action::RevertBelow { number: 1 }, Action::DiscardScope]
    );
    assert_eq!(result, Some(Err(SyncError::Application)));
}

#[test]
fn start_opens_a_scope() {
    let pointer = ChainPointer { block_number: 4, block_hash: h(4) };
    let message = SyncMessage::Confirmed { pointer };
    assert_eq!(
        Applier::start(message),
        Progress::Next { applier: Applier::Opening { message }, action: Action::OpenScope }
    );
}
