//! The swap store and the on-disk record framing.

use swap::alice::AliceState;
use swap::store::{frame, unframe, Database, StoredState, STORE_FORMAT_VERSION};

#[test]
fn get_on_empty_store() {
    let db = Database::new();
    assert!(db.get(1).is_none());
}

#[test]
fn put_then_get() {
    let mut db = Database::new();
    db.put(1, StoredState::Alice(AliceState::Started));
    match db.get(1) {
        Some(StoredState::Alice(AliceState::Started)) => {},
        other => panic!("expected Alice's Started, got {:?}", other),
    }
    assert!(db.get(2).is_none());
}

#[test]
fn put_overwrites_and_keeps_other_swaps() {
    let mut db = Database::new();
    db.put(1, StoredState::Alice(AliceState::Started));
    db.put(2, StoredState::Alice(AliceState::XmrLocked { lock_height: 42 }));
    db.put(1, StoredState::Alice(AliceState::BtcRedeemed));
    match db.get(1) {
        Some(StoredState::Alice(AliceState::BtcRedeemed)) => {},
        other => panic!("expected the overwritten record, got {:?}", other),
    }
    match db.get(2) {
        Some(StoredState::Alice(AliceState::XmrLocked { lock_height: 42 })) => {},
        other => panic!("expected the untouched record, got {:?}", other),
    }
}

#[test]
fn frame_round_trips() {
    let payload = vec![9u8, 8, 7];
    let framed = frame(&payload);
    assert_eq!(framed[0], STORE_FORMAT_VERSION);
    assert_eq!(unframe(&framed), Some(payload));
}

#[test]
fn unframe_rejects_other_versions() {
    assert_eq!(unframe(&vec![]), None);
    let mut framed = frame(&vec![1u8, 2]);
    framed[0] = STORE_FORMAT_VERSION.wrapping_add(1);
    assert_eq!(unframe(&framed), None);
}
