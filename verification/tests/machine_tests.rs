//! The two role machines driven through the protocol's paths, with the
//! balance sheet each path is expected to produce.

use swap::alice::{alice_step, AliceEffect, AliceEvent, AliceState};
use swap::bob::{bob_step, BobEffect, BobEvent, BobState};
use swap::ledger::{settle, Balances, Fees, Outcome};
use swap::protocol::{ProtocolError, SwapParams};

fn params() -> SwapParams {
    SwapParams {
        btc_amount: 1_000_000,
        xmr_amount: 10_000,
        cancel_timelock: 72,
        punish_timelock: 72,
        safety_margin: 10,
    }
}

fn start_balances() -> Balances {
    Balances { alice_btc: 0, bob_btc: 2_000_000, alice_xmr: 50_000, bob_xmr: 0 }
}

fn no_fees() -> Fees {
    Fees { btc_lock_fee: 0, xmr_lock_fee: 0 }
}

/// Feeds one event and asserts it was in protocol.
fn astep(p: &SwapParams, s: AliceState, e: AliceEvent) -> (AliceState, Vec<AliceEffect>) {
    let (s, eff, err) = alice_step(p, s, e);
    assert_eq!(err, None);
    (s, eff)
}

fn bstep(p: &SwapParams, s: BobState, e: BobEvent) -> (BobState, Vec<BobEffect>) {
    let (s, eff, err) = bob_step(p, s, e);
    assert_eq!(err, None);
    (s, eff)
}

#[test]
fn happy_path_balances() {
    let p = params();

    // Alice's side.
    let (s, eff) = astep(&p, AliceState::Started, AliceEvent::BtcLockConfirmed { height: 100 });
    assert_eq!(eff, vec![AliceEffect::LockXmr { amount: 10_000 }]);
    let (s, _) = astep(&p, s, AliceEvent::XmrLockFinal);
    let (s, _) = astep(&p, s, AliceEvent::EncSigReceived { encsig: vec![0xee; 162] });
    let (s, eff) = astep(&p, s, AliceEvent::Tick { height: 110 });
    assert_eq!(eff, vec![AliceEffect::BroadcastRedeem]);
    let (s, _) = astep(&p, s, AliceEvent::TxRedeemConfirmed);
    assert!(matches!(s, AliceState::BtcRedeemed));

    // Bob's side.
    let (s, eff) = bstep(&p, BobState::Started, BobEvent::HandshakeDone);
    assert_eq!(eff, vec![BobEffect::BroadcastLock]);
    let (s, _) = bstep(
        &p,
        s,
        BobEvent::BtcLockConfirmed { height: 100, txid: vec![0xaa; 32] },
    );
    let (s, _) = bstep(&p, s, BobEvent::XmrLockProofReceived);
    let (s, eff) = bstep(&p, s, BobEvent::XmrLockConfirmed);
    assert_eq!(eff, vec![BobEffect::SendEncSig]);
    let (s, _) = bstep(&p, s, BobEvent::EncSigDelivered);
    let (s, eff) = bstep(&p, s, BobEvent::TxRedeemSeen);
    assert_eq!(eff, vec![BobEffect::SweepXmr]);
    match s {
        BobState::XmrRedeemed { tx_lock_id } => assert_eq!(tx_lock_id, vec![0xaa; 32]),
        other => panic!("expected XmrRedeemed, got {:?}", other),
    }

    // The money.
    let b = settle(Outcome::Redeemed, &start_balances(), &p, &no_fees()).unwrap();
    assert_eq!(b.alice_btc, 990_000);
    assert_eq!(b.bob_xmr, 10_000);
    assert_eq!(b.bob_btc, 1_000_000);
    assert_eq!(b.alice_xmr, 40_000);
}

#[test]
fn alice_aborts_before_xmr_lock() {
    let p = params();

    // Bob walks the cancel-refund path after the timelock expires.
    let s = BobState::BtcLocked { lock_height: 100, tx_lock_id: vec![0xaa; 32] };
    let (s, eff) = bstep(&p, s, BobEvent::Tick { height: 171 });
    assert_eq!(eff, vec![]);
    assert!(matches!(s, BobState::BtcLocked { .. }));
    let (s, eff) = bstep(&p, s, BobEvent::Tick { height: 172 });
    assert_eq!(eff, vec![BobEffect::BroadcastCancel]);
    assert!(matches!(s, BobState::CancelTimelockExpired { .. }));
    let (s, eff) = bstep(&p, s, BobEvent::TxCancelConfirmed);
    assert_eq!(eff, vec![BobEffect::BroadcastRefund]);
    // if the first broadcast is lost, the next tick re-emits it
    let (s, eff) = bstep(&p, s, BobEvent::Tick { height: 173 });
    assert_eq!(eff, vec![BobEffect::BroadcastRefund]);
    let (s, _) = bstep(&p, s, BobEvent::TxRefundConfirmed);
    assert!(matches!(s, BobState::BtcRefunded));

    let b = settle(Outcome::RefundedBeforeXmrLock, &start_balances(), &p, &no_fees()).unwrap();
    assert_eq!(b.bob_btc, 2_000_000 - 20_000);
    assert_eq!(b.alice_btc, 0);
    assert_eq!(b.alice_xmr, 50_000);
}

#[test]
fn alice_aborts_after_xmr_lock() {
    let p = params();

    // Alice walks to the refund terminal after Bob refunds.
    let s = AliceState::XmrLocked { lock_height: 100 };
    let (s, eff) = astep(&p, s, AliceEvent::Tick { height: 200 });
    assert_eq!(eff, vec![AliceEffect::BroadcastCancel]);
    let (s, _) = astep(&p, s, AliceEvent::TxCancelConfirmed);
    let (s, eff) = astep(&p, s, AliceEvent::TxRefundSeen);
    assert_eq!(eff, vec![AliceEffect::SweepXmr]);
    assert!(matches!(s, AliceState::BtcRefunded));
    let (s, _) = astep(&p, s, AliceEvent::XmrSweepDone);
    assert!(matches!(s, AliceState::XmrRefunded));

    let b = settle(Outcome::RefundedAfterXmrLock, &start_balances(), &p, &no_fees()).unwrap();
    assert_eq!(b.bob_btc, 2_000_000 - 20_000);
    assert_eq!(b.alice_xmr, 50_000 - 10_000);
    assert_eq!(b.bob_xmr, 0);
}

#[test]
fn bob_aborts_and_is_punished() {
    let p = params();

    // Alice reaches the punish terminal once both timelocks expire.
    let s = AliceState::EncSigLearned { lock_height: 100, encsig: vec![0xee; 162] };
    let (s, eff) = astep(&p, s, AliceEvent::Tick { height: 172 });
    assert_eq!(eff, vec![AliceEffect::BroadcastCancel]);
    let (s, _) = astep(&p, s, AliceEvent::TxCancelConfirmed);
    let (s, eff) = astep(&p, s, AliceEvent::Tick { height: 243 });
    assert_eq!(eff, vec![]);
    let (s, eff) = astep(&p, s, AliceEvent::Tick { height: 244 });
    assert_eq!(eff, vec![AliceEffect::BroadcastPunish]);
    assert!(matches!(s, AliceState::BtcPunishable { .. }));
    // if the first broadcast is lost, the next tick re-emits it
    let (s, eff) = astep(&p, s, AliceEvent::Tick { height: 245 });
    assert_eq!(eff, vec![AliceEffect::BroadcastPunish]);
    assert!(matches!(s, AliceState::BtcPunishable { .. }));
    let (s, _) = astep(&p, s, AliceEvent::TxPunishConfirmed);
    assert!(matches!(s, AliceState::BtcPunished));

    // Bob sees the punish spend.
    let s = BobState::BtcCancelled { lock_height: 100 };
    let (s, _) = bstep(&p, s, BobEvent::TxPunishSeen);
    assert!(matches!(s, BobState::BtcPunished));

    let b = settle(Outcome::Punished, &start_balances(), &p, &no_fees()).unwrap();
    assert_eq!(b.alice_btc, 1_000_000 - 20_000);
    assert_eq!(b.bob_btc, 1_000_000);
    assert_eq!(b.bob_xmr, 0);
}

#[test]
fn restart_resumes_from_store() {
    let p = params();

    // Bob progresses to the lock confirmation, checkpoints, and dies.
    let (s, _) = bstep(&p, BobState::Started, BobEvent::HandshakeDone);
    let (s, _) = bstep(
        &p,
        s,
        BobEvent::BtcLockConfirmed { height: 100, txid: vec![0xaa; 32] },
    );
    let mut db = swap::store::Database::new();
    db.put(7, swap::store::StoredState::Bob(s));

    // On restart the stored state is found and the swap completes as the
    // happy path would have.
    let resumed = match db.get(7) {
        Some(swap::store::StoredState::Bob(BobState::BtcLocked { lock_height, tx_lock_id })) => {
            BobState::BtcLocked { lock_height: *lock_height, tx_lock_id: tx_lock_id.clone() }
        },
        other => panic!("expected Bob's BtcLocked in the store, got {:?}", other),
    };
    let (s, _) = bstep(&p, resumed, BobEvent::XmrLockProofReceived);
    let (s, eff) = bstep(&p, s, BobEvent::XmrLockConfirmed);
    assert_eq!(eff, vec![BobEffect::SendEncSig]);
    let (s, _) = bstep(&p, s, BobEvent::EncSigDelivered);
    let (s, _) = bstep(&p, s, BobEvent::TxRedeemSeen);
    match s {
        BobState::XmrRedeemed { tx_lock_id } => assert_eq!(tx_lock_id, vec![0xaa; 32]),
        other => panic!("expected XmrRedeemed, got {:?}", other),
    }
}

#[test]
fn cancel_race_single_confirmation() {
    let p = params();

    // Both parties reach expiry and each broadcasts a cancel; the chain
    // confirms exactly one of them, and both machines take the refund path
    // from that single confirmation.
    let a = AliceState::XmrLocked { lock_height: 100 };
    let (a, a_eff) = astep(&p, a, AliceEvent::Tick { height: 172 });
    let b = BobState::EncSigSent { lock_height: 100, tx_lock_id: vec![0xaa; 32] };
    let (b, b_eff) = bstep(&p, b, BobEvent::Tick { height: 172 });
    assert_eq!(a_eff, vec![AliceEffect::BroadcastCancel]);
    assert_eq!(b_eff, vec![BobEffect::BroadcastCancel]);

    let (a, _) = astep(&p, a, AliceEvent::TxCancelConfirmed);
    let (b, _) = bstep(&p, b, BobEvent::TxCancelConfirmed);
    assert!(matches!(a, AliceState::BtcCancelled { .. }));
    assert!(matches!(b, BobState::BtcCancelled { .. }));

    let (b, _) = bstep(&p, b, BobEvent::TxRefundConfirmed);
    assert!(matches!(b, BobState::BtcRefunded));
    let (a, _) = astep(&p, a, AliceEvent::TxRefundSeen);
    let (a, _) = astep(&p, a, AliceEvent::XmrSweepDone);
    assert!(matches!(a, AliceState::XmrRefunded));

    // Whichever cancel confirmed, the fee came out of the locked amount,
    // so the balance sheet is the same for both variants.
    let alice_submitted = settle(Outcome::RefundedAfterXmrLock, &start_balances(), &p, &no_fees());
    let bob_submitted = settle(Outcome::RefundedAfterXmrLock, &start_balances(), &p, &no_fees());
    assert_eq!(alice_submitted, bob_submitted);
    assert_eq!(alice_submitted.unwrap().bob_btc, 2_000_000 - 20_000);
}

#[test]
fn engine_persists_the_step_it_hands_back() {
    let p = params();
    let mut db = swap::store::Database::new();
    let (eff, err) = swap::engine::alice_step_and_persist(
        &mut db,
        9,
        &p,
        AliceState::Started,
        AliceEvent::BtcLockConfirmed { height: 100 },
    );
    assert_eq!(err, None);
    assert_eq!(eff, vec![AliceEffect::LockXmr { amount: 10_000 }]);
    match db.get(9) {
        Some(swap::store::StoredState::Alice(AliceState::XmrLockPending { lock_height: 100 })) => {},
        other => panic!("expected the stepped state committed, got {:?}", other),
    }

    let (eff, err) = swap::engine::bob_step_and_persist(
        &mut db,
        10,
        &p,
        BobState::Started,
        BobEvent::HandshakeDone,
    );
    assert_eq!(err, None);
    assert_eq!(eff, vec![BobEffect::BroadcastLock]);
    assert!(db.get(10).is_some());
    assert!(db.get(9).is_some());
}

#[test]
fn settle_reports_unrepresentable_balances() {
    let p = params();
    let broke = Balances { alice_btc: 0, bob_btc: 0, alice_xmr: 0, bob_xmr: 0 };
    assert!(settle(Outcome::Redeemed, &broke, &p, &no_fees()).is_none());
    assert!(settle(Outcome::Punished, &broke, &p, &no_fees()).is_none());
}

#[test]
fn unexpected_message_does_not_transition() {
    let p = params();
    let (s, eff, err) = alice_step(&p, AliceState::Started, AliceEvent::TxRedeemConfirmed);
    assert!(matches!(s, AliceState::Started));
    assert_eq!(eff, vec![]);
    assert_eq!(err, Some(ProtocolError::UnexpectedMessage));

    let (s, eff, err) = bob_step(&p, BobState::BtcRefunded, BobEvent::Tick { height: 999 });
    assert!(matches!(s, BobState::BtcRefunded));
    assert_eq!(eff, vec![]);
    assert_eq!(err, Some(ProtocolError::UnexpectedMessage));
}

#[test]
fn terminal_states_absorb() {
    let p = params();
    let (s, eff, _) = alice_step(&p, AliceState::BtcRedeemed, AliceEvent::Tick { height: 500 });
    assert!(matches!(s, AliceState::BtcRedeemed));
    assert_eq!(eff, vec![]);
    let (s, eff, _) = bob_step(
        &p,
        BobState::XmrRedeemed { tx_lock_id: vec![0xaa; 32] },
        BobEvent::Tick { height: 500 },
    );
    assert!(matches!(s, BobState::XmrRedeemed { .. }));
    assert_eq!(eff, vec![]);
}

#[test]
fn redeem_window_respects_safety_margin() {
    let p = params();
    // cancel expiry is at height 172; the margin is 10, so 161 still
    // redeems and 162 does not.
    let s = AliceState::EncSigLearned { lock_height: 100, encsig: vec![0xee; 162] };
    let (s, eff) = astep(&p, s, AliceEvent::Tick { height: 161 });
    assert_eq!(eff, vec![AliceEffect::BroadcastRedeem]);
    let (s, eff) = astep(&p, s, AliceEvent::Tick { height: 162 });
    assert_eq!(eff, vec![]);
    assert!(matches!(s, AliceState::EncSigLearned { .. }));
}
