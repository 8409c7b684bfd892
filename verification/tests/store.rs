use block_sync::hash::ChainPointer;
use block_sync::mem_pool::MemPool;
use block_sync::message::LocalBlock;
use block_sync::store::ChainStore;

fn h(seed: u8) -> [u8; 32] {
    [seed; 32]
}

fn block(number: u64) -> LocalBlock {
    LocalBlock {
        number,
        hash: h(number as u8 + 1),
        parent_hash: if number == 0 { [0; 32] } else { h(number as u8) },
    }
}

fn store_with(blocks: u64) -> ChainStore {
    let mut store = ChainStore::new();
    for n in 0..blocks {
        assert!(store.apply_block(block(n)));
    }
    store
}

#[test]
fn empty_store_holds_nothing() {
    let store = ChainStore::new();
    assert_eq!(store.get_valid_tip(), None);
    assert_eq!(store.get_block_hash(0), None);
    assert_eq!(store.get_last_confirmed(), None);
    assert_eq!(store.get_last_submitted(), None);
    assert_eq!(store.get_submit_tx(0), None);
}

#[test]
fn first_block_must_have_number_zero() {
    let mut store = ChainStore::new();
    assert!(!store.apply_block(block(1)));
    assert_eq!(store.get_valid_tip(), None);
    assert!(store.apply_block(block(0)));
    assert_eq!(
        store.get_valid_tip(),
        Some(ChainPointer { block_number: 0, block_hash: h(1) })
    );
}

#[test]
fn block_must_extend_the_tip() {
    let mut store = store_with(3);
    // a gap
    assert!(!store.apply_block(block(4)));
    // a taken height
    assert!(!store.apply_block(block(2)));
    // the next number under a wrong parent
    let orphan = LocalBlock { number: 3, hash: h(4), parent_hash: h(99) };
    assert!(!store.apply_block(orphan));
    assert_eq!(
        store.get_valid_tip(),
        Some(ChainPointer { block_number: 2, block_hash: h(3) })
    );
    assert!(store.apply_block(block(3)));
    assert_eq!(
        store.get_valid_tip(),
        Some(ChainPointer { block_number: 3, block_hash: h(4) })
    );
    assert_eq!(store.get_block_hash(3), Some(h(4)));
    assert_eq!(store.get_block_hash(4), None);
}

#[test]
fn revert_removes_blocks_and_submissions_above() {
    let mut store = store_with(6);
    store.set_submit_tx(2, h(0x20));
    store.set_submit_tx(5, h(0x50));
    store.set_submit_tx(9, h(0x90));
    store.set_last_confirmed(ChainPointer { block_number: 4, block_hash: h(5) });
    store.revert_below(3);
    assert_eq!(
        store.get_valid_tip(),
        Some(ChainPointer { block_number: 3, block_hash: h(4) })
    );
    for n in 0..=3u64 {
        assert_eq!(store.get_block_hash(n), Some(h(n as u8 + 1)));
    }
    assert_eq!(store.get_block_hash(4), None);
    assert_eq!(store.get_block_hash(5), None);
    assert_eq!(store.get_submit_tx(2), Some(h(0x20)));
    assert_eq!(store.get_submit_tx(5), None);
    assert_eq!(store.get_submit_tx(9), None);
    // the pointers are not the revert's to change
    assert_eq!(
        store.get_last_confirmed(),
        Some(ChainPointer { block_number: 4, block_hash: h(5) })
    );
}

#[test]
fn revert_above_the_tip_changes_no_block() {
    let mut store = store_with(3);
    store.revert_below(2);
    assert_eq!(store.get_valid_tip().unwrap().block_number, 2);
    store.revert_below(7);
    assert_eq!(store.get_valid_tip().unwrap().block_number, 2);
    store.revert_below(u64::MAX);
    assert_eq!(store.get_valid_tip().unwrap().block_number, 2);
    store.revert_below(0);
    assert_eq!(
        store.get_valid_tip(),
        Some(ChainPointer { block_number: 0, block_hash: h(1) })
    );
}

#[test]
fn later_submission_replaces_earlier_one() {
    let mut store = ChainStore::new();
    store.set_submit_tx(7, h(1));
    store.set_submit_tx(8, h(2));
    store.set_submit_tx(7, h(3));
    assert_eq!(store.get_submit_tx(7), Some(h(3)));
    assert_eq!(store.get_submit_tx(8), Some(h(2)));
    assert_eq!(store.get_submit_tx(6), None);
}

#[test]
fn pointers_are_set_and_read_back() {
    let mut store = ChainStore::new();
    let p = ChainPointer { block_number: 12, block_hash: h(12) };
    let q = ChainPointer { block_number: 13, block_hash: h(13) };
    store.set_last_confirmed(p);
    store.set_last_submitted(q);
    assert_eq!(store.get_last_confirmed(), Some(p));
    assert_eq!(store.get_last_submitted(), Some(q));
}

#[test]
fn snapshot_is_independent_of_the_store() {
    let mut store = store_with(2);
    store.set_submit_tx(1, h(0x11));
    let mut copy = store.snapshot();
    copy.apply_block(block(2));
    copy.set_submit_tx(1, h(0x22));
    assert_eq!(store.get_valid_tip().unwrap().block_number, 1);
    assert_eq!(store.get_submit_tx(1), Some(h(0x11)));
    assert_eq!(copy.get_valid_tip().unwrap().block_number, 2);
    assert_eq!(copy.get_submit_tx(1), Some(h(0x22)));
}

#[test]
fn mem_pool_remembers_the_last_tip() {
    let mut pool = MemPool::new();
    assert_eq!(pool, MemPool { tip: None, completed_initial_syncing: false });
    pool.notify_new_tip(h(1));
    pool.notify_new_tip(h(2));
    assert_eq!(pool.tip, Some(h(2)));
    pool.notify_new_tip(h(2));
    assert_eq!(pool.tip, Some(h(2)));
    assert!(!pool.completed_initial_syncing);
    pool.set_completed_initial_syncing();
    assert!(pool.completed_initial_syncing);
    assert_eq!(pool.tip, Some(h(2)));
}
