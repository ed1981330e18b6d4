//! Bob's state machine.
//!
//! Bob starts with BTC and ends, when all goes well, with the locked XMR,
//! recovered by pulling Alice's key half out of her redeem spend. The same
//! discipline as on Alice's side holds: the step function is total, only
//! ever moves forward, and broadcasts a timelocked spend only after its
//! timelock has verifiably elapsed.

use vstd::prelude::*;

use crate::protocol::{cancel_expired, ProtocolError, SwapParams};

verus! {

/// Bob's position in the swap.
#[derive(Debug)]
pub enum BobState {
    /// Handshake done; the lock transaction is broadcast and awaiting
    /// confirmation.
    Started,
    /// The lock transaction confirmed at `lock_height`.
    BtcLocked { lock_height: u64, tx_lock_id: Vec<u8> },
    /// Alice's XMR lock proof arrived and checked out.
    XmrLockProofReceived { lock_height: u64, tx_lock_id: Vec<u8> },
    /// The XMR lock reached its required confirmation count.
    XmrLocked { lock_height: u64, tx_lock_id: Vec<u8> },
    /// The encrypted signature on the redeem transaction went to Alice.
    EncSigSent { lock_height: u64, tx_lock_id: Vec<u8> },
    /// Alice's redeem spend was observed; the XMR sweep succeeded: success.
    XmrRedeemed { tx_lock_id: Vec<u8> },
    /// The cancel timelock expired.
    CancelTimelockExpired { lock_height: u64 },
    /// The cancel transaction confirmed.
    BtcCancelled { lock_height: u64 },
    /// The refund spend confirmed: Bob's BTC is back.
    BtcRefunded,
    /// The punish spend confirmed: Bob lost the locked BTC.
    BtcPunished,
}

/// What Bob observes.
#[derive(Debug)]
pub enum BobEvent {
    /// The handshake concluded; the lock transaction may be broadcast.
    HandshakeDone,
    /// The lock transaction reached finality at `height` with id `txid`.
    BtcLockConfirmed { height: u64, txid: Vec<u8> },
    /// Alice's XMR lock proof arrived and verified.
    XmrLockProofReceived,
    /// The XMR lock reached its required confirmation count.
    XmrLockConfirmed,
    /// The encrypted signature was delivered to Alice.
    EncSigDelivered,
    /// Alice's redeem spend of the shared output was observed, and the swept
    /// XMR arrived.
    TxRedeemSeen,
    /// A new block height was observed.
    Tick { height: u64 },
    /// The cancel transaction confirmed.
    TxCancelConfirmed,
    /// The refund transaction confirmed.
    TxRefundConfirmed,
    /// Alice's punish spend was observed.
    TxPunishSeen,
}

/// What the engine must do after a step.
#[derive(Clone, Copy, Debug, PartialEq, Eq, Structural)]
pub enum BobEffect {
    /// Broadcast the signed lock transaction.
    BroadcastLock,
    /// Send the encrypted redeem signature to Alice.
    SendEncSig,
    /// Recover Alice's key half from her redeem spend and sweep the XMR.
    SweepXmr,
    /// Complete and broadcast the cancel transaction.
    BroadcastCancel,
    /// Decrypt Alice's refund signature, complete and broadcast the refund.
    BroadcastRefund,
}

/// The transition relation: next state, effects, and whether the event was
/// out of protocol.
pub open spec fn bob_step_spec(p: SwapParams, s: BobState, e: BobEvent) -> (
    BobState,
    Seq<BobEffect>,
    Option<ProtocolError>,
) {
    match (s, e) {
        (BobState::Started, BobEvent::HandshakeDone) => (
            BobState::Started,
            seq![BobEffect::BroadcastLock],
            None,
        ),
        (BobState::Started, BobEvent::BtcLockConfirmed { height, txid }) => (
            BobState::BtcLocked { lock_height: height, tx_lock_id: txid },
            seq![],
            None,
        ),
        (BobState::BtcLocked { lock_height, tx_lock_id }, BobEvent::XmrLockProofReceived) => (
            BobState::XmrLockProofReceived { lock_height, tx_lock_id },
            seq![],
            None,
        ),
        (BobState::BtcLocked { lock_height, tx_lock_id }, BobEvent::Tick { height }) => {
            if height >= lock_height + p.cancel_timelock {
                (
                    BobState::CancelTimelockExpired { lock_height },
                    seq![BobEffect::BroadcastCancel],
                    None,
                )
            } else {
                (BobState::BtcLocked { lock_height, tx_lock_id }, seq![], None)
            }
        },
        (BobState::XmrLockProofReceived { lock_height, tx_lock_id }, BobEvent::XmrLockConfirmed) => (
            BobState::XmrLocked { lock_height, tx_lock_id },
            seq![BobEffect::SendEncSig],
            None,
        ),
        (BobState::XmrLockProofReceived { lock_height, tx_lock_id }, BobEvent::Tick { height }) => {
            if height >= lock_height + p.cancel_timelock {
                (
                    BobState::CancelTimelockExpired { lock_height },
                    seq![BobEffect::BroadcastCancel],
                    None,
                )
            } else {
                (BobState::XmrLockProofReceived { lock_height, tx_lock_id }, seq![], None)
            }
        },
        (BobState::XmrLocked { lock_height, tx_lock_id }, BobEvent::EncSigDelivered) => (
            BobState::EncSigSent { lock_height, tx_lock_id },
            seq![],
            None,
        ),
        (BobState::XmrLocked { lock_height, tx_lock_id }, BobEvent::Tick { height }) => {
            if height >= lock_height + p.cancel_timelock {
                (
                    BobState::CancelTimelockExpired { lock_height },
                    seq![BobEffect::BroadcastCancel],
                    None,
                )
            } else {
                (BobState::XmrLocked { lock_height, tx_lock_id }, seq![], None)
            }
        },
        (BobState::EncSigSent { lock_height, tx_lock_id }, BobEvent::TxRedeemSeen) => (
            BobState::XmrRedeemed { tx_lock_id },
            seq![BobEffect::SweepXmr],
            None,
        ),
        (BobState::EncSigSent { lock_height, tx_lock_id }, BobEvent::Tick { height }) => {
            if height >= lock_height + p.cancel_timelock {
                (
                    BobState::CancelTimelockExpired { lock_height },
                    seq![BobEffect::BroadcastCancel],
                    None,
                )
            } else {
                (BobState::EncSigSent { lock_height, tx_lock_id }, seq![], None)
            }
        },
        (BobState::CancelTimelockExpired { lock_height }, BobEvent::TxCancelConfirmed) => (
            BobState::BtcCancelled { lock_height },
            seq![BobEffect::BroadcastRefund],
            None,
        ),
        (BobState::CancelTimelockExpired { lock_height }, BobEvent::Tick { height }) => {
            if height >= lock_height + p.cancel_timelock {
                (
                    BobState::CancelTimelockExpired { lock_height },
                    seq![BobEffect::BroadcastCancel],
                    None,
                )
            } else {
                (BobState::CancelTimelockExpired { lock_height }, seq![], None)
            }
        },
        (BobState::BtcCancelled { lock_height }, BobEvent::Tick { height }) => (
            BobState::BtcCancelled { lock_height },
            seq![BobEffect::BroadcastRefund],
            None,
        ),
        (BobState::BtcCancelled { lock_height }, BobEvent::TxRefundConfirmed) => (
            BobState::BtcRefunded,
            seq![],
            None,
        ),
        (BobState::BtcCancelled { lock_height }, BobEvent::TxPunishSeen) => (
            BobState::BtcPunished,
            seq![],
            None,
        ),
        (s, _) => (s, seq![], Some(ProtocolError::UnexpectedMessage)),
    }
}

/// How far along the protocol's order a state lies.
pub open spec fn bob_rank(s: BobState) -> int {
    match s {
        BobState::Started => 0,
        BobState::BtcLocked { .. } => 1,
        BobState::XmrLockProofReceived { .. } => 2,
        BobState::XmrLocked { .. } => 3,
        BobState::EncSigSent { .. } => 4,
        BobState::CancelTimelockExpired { .. } => 5,
        BobState::BtcCancelled { .. } => 6,
        BobState::XmrRedeemed { .. } => 7,
        BobState::BtcRefunded => 7,
        BobState::BtcPunished => 7,
    }
}

/// The states from which no transition leaves.
pub open spec fn bob_is_terminal(s: BobState) -> bool {
    s is XmrRedeemed || s is BtcRefunded || s is BtcPunished
}

/// One step of Bob's machine.
pub fn bob_step(p: &SwapParams, s: BobState, e: BobEvent) -> (r: (
    BobState,
    Vec<BobEffect>,
    Option<ProtocolError>,
))
    ensures
        r.0 == bob_step_spec(*p, s, e).0,
        r.1@ == bob_step_spec(*p, s, e).1,
        r.2 == bob_step_spec(*p, s, e).2,
{
    let mut effects: Vec<BobEffect> = Vec::new();
    match (s, e) {
        (BobState::Started, BobEvent::HandshakeDone) => {
            effects.push(BobEffect::BroadcastLock);
            assert(effects@ =~= seq![BobEffect::BroadcastLock]);
            (BobState::Started, effects, None)
        },
        (BobState::Started, BobEvent::BtcLockConfirmed { height, txid }) => (
            BobState::BtcLocked { lock_height: height, tx_lock_id: txid },
            effects,
            None,
        ),
        (BobState::BtcLocked { lock_height, tx_lock_id }, BobEvent::XmrLockProofReceived) => (
            BobState::XmrLockProofReceived { lock_height, tx_lock_id },
            effects,
            None,
        ),
        (BobState::BtcLocked { lock_height, tx_lock_id }, BobEvent::Tick { height }) => {
            if cancel_expired(lock_height, p.cancel_timelock, height) {
                effects.push(BobEffect::BroadcastCancel);
                assert(effects@ =~= seq![BobEffect::BroadcastCancel]);
                (BobState::CancelTimelockExpired { lock_height }, effects, None)
            } else {
                (BobState::BtcLocked { lock_height, tx_lock_id }, effects, None)
            }
        },
        (BobState::XmrLockProofReceived { lock_height, tx_lock_id }, BobEvent::XmrLockConfirmed) => {
            effects.push(BobEffect::SendEncSig);
            assert(effects@ =~= seq![BobEffect::SendEncSig]);
            (BobState::XmrLocked { lock_height, tx_lock_id }, effects, None)
        },
        (BobState::XmrLockProofReceived { lock_height, tx_lock_id }, BobEvent::Tick { height }) => {
            if cancel_expired(lock_height, p.cancel_timelock, height) {
                effects.push(BobEffect::BroadcastCancel);
                assert(effects@ =~= seq![BobEffect::BroadcastCancel]);
                (BobState::CancelTimelockExpired { lock_height }, effects, None)
            } else {
                (BobState::XmrLockProofReceived { lock_height, tx_lock_id }, effects, None)
            }
        },
        (BobState::XmrLocked { lock_height, tx_lock_id }, BobEvent::EncSigDelivered) => (
            BobState::EncSigSent { lock_height, tx_lock_id },
            effects,
            None,
        ),
        (BobState::XmrLocked { lock_height, tx_lock_id }, BobEvent::Tick { height }) => {
            if cancel_expired(lock_height, p.cancel_timelock, height) {
                effects.push(BobEffect::BroadcastCancel);
                assert(effects@ =~= seq![BobEffect::BroadcastCancel]);
                (BobState::CancelTimelockExpired { lock_height }, effects, None)
            } else {
                (BobState::XmrLocked { lock_height, tx_lock_id }, effects, None)
            }
        },
        (BobState::EncSigSent { lock_height, tx_lock_id }, BobEvent::TxRedeemSeen) => {
            effects.push(BobEffect::SweepXmr);
            assert(effects@ =~= seq![BobEffect::SweepXmr]);
            (BobState::XmrRedeemed { tx_lock_id }, effects, None)
        },
        (BobState::EncSigSent { lock_height, tx_lock_id }, BobEvent::Tick { height }) => {
            if cancel_expired(lock_height, p.cancel_timelock, height) {
                effects.push(BobEffect::BroadcastCancel);
                assert(effects@ =~= seq![BobEffect::BroadcastCancel]);
                (BobState::CancelTimelockExpired { lock_height }, effects, None)
            } else {
                (BobState::EncSigSent { lock_height, tx_lock_id }, effects, None)
            }
        },
        (BobState::CancelTimelockExpired { lock_height }, BobEvent::TxCancelConfirmed) => {
            effects.push(BobEffect::BroadcastRefund);
            assert(effects@ =~= seq![BobEffect::BroadcastRefund]);
            (BobState::BtcCancelled { lock_height }, effects, None)
        },
        (BobState::CancelTimelockExpired { lock_height }, BobEvent::Tick { height }) => {
            if cancel_expired(lock_height, p.cancel_timelock, height) {
                effects.push(BobEffect::BroadcastCancel);
                assert(effects@ =~= seq![BobEffect::BroadcastCancel]);
                (BobState::CancelTimelockExpired { lock_height }, effects, None)
            } else {
                (BobState::CancelTimelockExpired { lock_height }, effects, None)
            }
        },
        (BobState::BtcCancelled { lock_height }, BobEvent::Tick { height }) => {
            effects.push(BobEffect::BroadcastRefund);
            assert(effects@ =~= seq![BobEffect::BroadcastRefund]);
            (BobState::BtcCancelled { lock_height }, effects, None)
        },
        (BobState::BtcCancelled { lock_height }, BobEvent::TxRefundConfirmed) => (
            BobState::BtcRefunded,
            effects,
            None,
        ),
        (BobState::BtcCancelled { lock_height }, BobEvent::TxPunishSeen) => (
            BobState::BtcPunished,
            effects,
            None,
        ),
        (s, _) => (s, effects, Some(ProtocolError::UnexpectedMessage)),
    }
}

/// Progress is monotone: no event moves Bob's machine backwards, so
/// resuming from a persisted state and replaying events, duplicated ones
/// included, only ever carries the swap forward.
pub proof fn lemma_bob_progress_monotone(p: SwapParams, s: BobState, e: BobEvent)
    ensures
        bob_rank(bob_step_spec(p, s, e).0) >= bob_rank(s),
{
}

/// A terminal state absorbs every event.
pub proof fn lemma_bob_terminal_absorbs(p: SwapParams, s: BobState, e: BobEvent)
    requires
        bob_is_terminal(s),
    ensures
        bob_step_spec(p, s, e).0 == s,
        bob_step_spec(p, s, e).1 == Seq::<BobEffect>::empty(),
{
    assert(bob_step_spec(p, s, e).1 =~= Seq::<BobEffect>::empty());
}

/// The cancel transaction is only ever broadcast after the cancel timelock
/// has elapsed since lock confirmation.
pub proof fn lemma_bob_cancel_safety(p: SwapParams, s: BobState, e: BobEvent)
    ensures
        bob_step_spec(p, s, e).1.contains(BobEffect::BroadcastCancel)
            ==> (e matches BobEvent::Tick { height }
                && exists|lh: u64|
                    #[trigger] bob_lock_height(s) == Some(lh) && height >= lh + p.cancel_timelock),
{
}

/// The lock confirmation height a state remembers, if any.
pub open spec fn bob_lock_height(s: BobState) -> Option<u64> {
    match s {
        BobState::BtcLocked { lock_height, .. } => Some(lock_height),
        BobState::XmrLockProofReceived { lock_height, .. } => Some(lock_height),
        BobState::XmrLocked { lock_height, .. } => Some(lock_height),
        BobState::EncSigSent { lock_height, .. } => Some(lock_height),
        BobState::CancelTimelockExpired { lock_height } => Some(lock_height),
        BobState::BtcCancelled { lock_height } => Some(lock_height),
        _ => None,
    }
}

} // verus!
