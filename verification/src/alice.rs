//! Alice's state machine.
//!
//! Alice starts with XMR and ends, when all goes well, with the locked BTC.
//! Each state is a record of exactly what her next transition needs; the
//! step function is total — a pairing of state and event outside the
//! protocol returns the state unmoved and flags the message — and every
//! step only ever moves forward along the protocol's order, so replaying
//! events against a reloaded state can never regress it.

use vstd::prelude::*;

use crate::protocol::{cancel_expired, punish_expired, redeem_window_open, ProtocolError, SwapParams};

verus! {

/// Alice's position in the swap.
#[derive(Debug)]
pub enum AliceState {
    /// Handshake done; waiting for Bob's lock transaction to confirm.
    Started,
    /// BTC lock confirmed at `lock_height`; the XMR lock is broadcast and
    /// awaiting finality.
    XmrLockPending { lock_height: u64 },
    /// The XMR lock is final.
    XmrLocked { lock_height: u64 },
    /// Bob's encrypted signature on the redeem transaction is in hand.
    EncSigLearned { lock_height: u64, encsig: Vec<u8> },
    /// The redeem transaction confirmed: success.
    BtcRedeemed,
    /// The cancel timelock expired before redeeming.
    CancelTimelockExpired { lock_height: u64 },
    /// The cancel transaction confirmed.
    BtcCancelled { lock_height: u64 },
    /// Bob's refund spend was observed; the XMR sweep is under way.
    BtcRefunded,
    /// The XMR lock was swept back: refund complete.
    XmrRefunded,
    /// The punish timelock expired without a refund spend.
    BtcPunishable { lock_height: u64 },
    /// The punish transaction confirmed: Alice holds both funds.
    BtcPunished,
}

/// What Alice observes: peer messages, chain events and the block clock.
#[derive(Debug)]
pub enum AliceEvent {
    /// The BTC lock transaction reached finality at `height`.
    BtcLockConfirmed { height: u64 },
    /// Alice's XMR lock transaction reached finality.
    XmrLockFinal,
    /// Bob sent his encrypted signature on the redeem transaction.
    EncSigReceived { encsig: Vec<u8> },
    /// A new block height was observed.
    Tick { height: u64 },
    /// The redeem transaction confirmed.
    TxRedeemConfirmed,
    /// The cancel transaction confirmed.
    TxCancelConfirmed,
    /// Bob's refund spend of the cancel output was observed.
    TxRefundSeen,
    /// The XMR sweep back to Alice's wallet completed.
    XmrSweepDone,
    /// The punish transaction confirmed.
    TxPunishConfirmed,
}

/// What the engine must do after a step.
#[derive(Clone, Copy, Debug, PartialEq, Eq, Structural)]
pub enum AliceEffect {
    /// Fund the shared Monero output with this many piconero.
    LockXmr { amount: u64 },
    /// Complete and broadcast the redeem transaction.
    BroadcastRedeem,
    /// Complete and broadcast the cancel transaction.
    BroadcastCancel,
    /// Complete and broadcast the punish transaction.
    BroadcastPunish,
    /// Recover the counterparty key half and sweep the XMR lock.
    SweepXmr,
}

/// The transition relation: next state, effects, and whether the event was
/// out of protocol.
pub open spec fn alice_step_spec(p: SwapParams, s: AliceState, e: AliceEvent) -> (
    AliceState,
    Seq<AliceEffect>,
    Option<ProtocolError>,
) {
    match (s, e) {
        (AliceState::Started, AliceEvent::BtcLockConfirmed { height }) => (
            AliceState::XmrLockPending { lock_height: height },
            seq![AliceEffect::LockXmr { amount: p.xmr_amount }],
            None,
        ),
        (AliceState::XmrLockPending { lock_height }, AliceEvent::XmrLockFinal) => (
            AliceState::XmrLocked { lock_height },
            seq![],
            None,
        ),
        (AliceState::XmrLockPending { lock_height }, AliceEvent::Tick { height }) => {
            if height >= lock_height + p.cancel_timelock {
                (
                    AliceState::CancelTimelockExpired { lock_height },
                    seq![AliceEffect::BroadcastCancel],
                    None,
                )
            } else {
                (AliceState::XmrLockPending { lock_height }, seq![], None)
            }
        },
        (AliceState::XmrLocked { lock_height }, AliceEvent::EncSigReceived { encsig }) => (
            AliceState::EncSigLearned { lock_height, encsig },
            seq![],
            None,
        ),
        (AliceState::XmrLocked { lock_height }, AliceEvent::Tick { height }) => {
            if height >= lock_height + p.cancel_timelock {
                (
                    AliceState::CancelTimelockExpired { lock_height },
                    seq![AliceEffect::BroadcastCancel],
                    None,
                )
            } else {
                (AliceState::XmrLocked { lock_height }, seq![], None)
            }
        },
        (AliceState::EncSigLearned { lock_height, encsig }, AliceEvent::Tick { height }) => {
            if height >= lock_height + p.cancel_timelock {
                (
                    AliceState::CancelTimelockExpired { lock_height },
                    seq![AliceEffect::BroadcastCancel],
                    None,
                )
            } else if height + p.safety_margin < lock_height + p.cancel_timelock {
                (
                    AliceState::EncSigLearned { lock_height, encsig },
                    seq![AliceEffect::BroadcastRedeem],
                    None,
                )
            } else {
                (AliceState::EncSigLearned { lock_height, encsig }, seq![], None)
            }
        },
        (AliceState::EncSigLearned { lock_height, encsig }, AliceEvent::TxRedeemConfirmed) => (
            AliceState::BtcRedeemed,
            seq![],
            None,
        ),
        (AliceState::CancelTimelockExpired { lock_height }, AliceEvent::TxCancelConfirmed) => (
            AliceState::BtcCancelled { lock_height },
            seq![],
            None,
        ),
        (AliceState::CancelTimelockExpired { lock_height }, AliceEvent::Tick { height }) => {
            if height >= lock_height + p.cancel_timelock {
                (
                    AliceState::CancelTimelockExpired { lock_height },
                    seq![AliceEffect::BroadcastCancel],
                    None,
                )
            } else {
                (AliceState::CancelTimelockExpired { lock_height }, seq![], None)
            }
        },
        (AliceState::BtcCancelled { lock_height }, AliceEvent::TxRefundSeen) => (
            AliceState::BtcRefunded,
            seq![AliceEffect::SweepXmr],
            None,
        ),
        (AliceState::BtcCancelled { lock_height }, AliceEvent::Tick { height }) => {
            if height >= lock_height + p.cancel_timelock + p.punish_timelock {
                (
                    AliceState::BtcPunishable { lock_height },
                    seq![AliceEffect::BroadcastPunish],
                    None,
                )
            } else {
                (AliceState::BtcCancelled { lock_height }, seq![], None)
            }
        },
        (AliceState::BtcPunishable { lock_height }, AliceEvent::Tick { height }) => {
            if height >= lock_height + p.cancel_timelock + p.punish_timelock {
                (
                    AliceState::BtcPunishable { lock_height },
                    seq![AliceEffect::BroadcastPunish],
                    None,
                )
            } else {
                (AliceState::BtcPunishable { lock_height }, seq![], None)
            }
        },
        (AliceState::BtcRefunded, AliceEvent::XmrSweepDone) => (
            AliceState::XmrRefunded,
            seq![],
            None,
        ),
        (AliceState::BtcPunishable { lock_height }, AliceEvent::TxPunishConfirmed) => (
            AliceState::BtcPunished,
            seq![],
            None,
        ),
        (s, _) => (s, seq![], Some(ProtocolError::UnexpectedMessage)),
    }
}

/// How far along the protocol's order a state lies; transitions only ever
/// increase it.
pub open spec fn alice_rank(s: AliceState) -> int {
    match s {
        AliceState::Started => 0,
        AliceState::XmrLockPending { .. } => 1,
        AliceState::XmrLocked { .. } => 2,
        AliceState::EncSigLearned { .. } => 3,
        AliceState::CancelTimelockExpired { .. } => 4,
        AliceState::BtcCancelled { .. } => 5,
        AliceState::BtcRefunded => 6,
        AliceState::BtcPunishable { .. } => 6,
        AliceState::XmrRefunded => 7,
        AliceState::BtcPunished => 7,
        AliceState::BtcRedeemed => 7,
    }
}

/// The states from which no transition leaves.
pub open spec fn alice_is_terminal(s: AliceState) -> bool {
    s is BtcRedeemed || s is XmrRefunded || s is BtcPunished
}

/// One step of Alice's machine.
pub fn alice_step(p: &SwapParams, s: AliceState, e: AliceEvent) -> (r: (
    AliceState,
    Vec<AliceEffect>,
    Option<ProtocolError>,
))
    ensures
        r.0 == alice_step_spec(*p, s, e).0,
        r.1@ == alice_step_spec(*p, s, e).1,
        r.2 == alice_step_spec(*p, s, e).2,
{
    let mut effects: Vec<AliceEffect> = Vec::new();
    match (s, e) {
        (AliceState::Started, AliceEvent::BtcLockConfirmed { height }) => {
            effects.push(AliceEffect::LockXmr { amount: p.xmr_amount });
            assert(effects@ =~= seq![AliceEffect::LockXmr { amount: p.xmr_amount }]);
            (AliceState::XmrLockPending { lock_height: height }, effects, None)
        },
        (AliceState::XmrLockPending { lock_height }, AliceEvent::XmrLockFinal) => (
            AliceState::XmrLocked { lock_height },
            effects,
            None,
        ),
        (AliceState::XmrLockPending { lock_height }, AliceEvent::Tick { height }) => {
            if cancel_expired(lock_height, p.cancel_timelock, height) {
                effects.push(AliceEffect::BroadcastCancel);
                assert(effects@ =~= seq![AliceEffect::BroadcastCancel]);
                (AliceState::CancelTimelockExpired { lock_height }, effects, None)
            } else {
                (AliceState::XmrLockPending { lock_height }, effects, None)
            }
        },
        (AliceState::XmrLocked { lock_height }, AliceEvent::EncSigReceived { encsig }) => (
            AliceState::EncSigLearned { lock_height, encsig },
            effects,
            None,
        ),
        (AliceState::XmrLocked { lock_height }, AliceEvent::Tick { height }) => {
            if cancel_expired(lock_height, p.cancel_timelock, height) {
                effects.push(AliceEffect::BroadcastCancel);
                assert(effects@ =~= seq![AliceEffect::BroadcastCancel]);
                (AliceState::CancelTimelockExpired { lock_height }, effects, None)
            } else {
                (AliceState::XmrLocked { lock_height }, effects, None)
            }
        },
        (AliceState::EncSigLearned { lock_height, encsig }, AliceEvent::Tick { height }) => {
            if cancel_expired(lock_height, p.cancel_timelock, height) {
                effects.push(AliceEffect::BroadcastCancel);
                assert(effects@ =~= seq![AliceEffect::BroadcastCancel]);
                (AliceState::CancelTimelockExpired { lock_height }, effects, None)
            } else if redeem_window_open(lock_height, p.cancel_timelock, p.safety_margin, height) {
                effects.push(AliceEffect::BroadcastRedeem);
                assert(effects@ =~= seq![AliceEffect::BroadcastRedeem]);
                (AliceState::EncSigLearned { lock_height, encsig }, effects, None)
            } else {
                (AliceState::EncSigLearned { lock_height, encsig }, effects, None)
            }
        },
        (AliceState::EncSigLearned { lock_height, encsig }, AliceEvent::TxRedeemConfirmed) => (
            AliceState::BtcRedeemed,
            effects,
            None,
        ),
        (AliceState::CancelTimelockExpired { lock_height }, AliceEvent::TxCancelConfirmed) => (
            AliceState::BtcCancelled { lock_height },
            effects,
            None,
        ),
        (AliceState::CancelTimelockExpired { lock_height }, AliceEvent::Tick { height }) => {
            if cancel_expired(lock_height, p.cancel_timelock, height) {
                effects.push(AliceEffect::BroadcastCancel);
                assert(effects@ =~= seq![AliceEffect::BroadcastCancel]);
                (AliceState::CancelTimelockExpired { lock_height }, effects, None)
            } else {
                (AliceState::CancelTimelockExpired { lock_height }, effects, None)
            }
        },
        (AliceState::BtcCancelled { lock_height }, AliceEvent::TxRefundSeen) => {
            effects.push(AliceEffect::SweepXmr);
            assert(effects@ =~= seq![AliceEffect::SweepXmr]);
            (AliceState::BtcRefunded, effects, None)
        },
        (AliceState::BtcCancelled { lock_height }, AliceEvent::Tick { height }) => {
            if punish_expired(lock_height, p.cancel_timelock, p.punish_timelock, height) {
                effects.push(AliceEffect::BroadcastPunish);
                assert(effects@ =~= seq![AliceEffect::BroadcastPunish]);
                (AliceState::BtcPunishable { lock_height }, effects, None)
            } else {
                (AliceState::BtcCancelled { lock_height }, effects, None)
            }
        },
        (AliceState::BtcPunishable { lock_height }, AliceEvent::Tick { height }) => {
            if punish_expired(lock_height, p.cancel_timelock, p.punish_timelock, height) {
                effects.push(AliceEffect::BroadcastPunish);
                assert(effects@ =~= seq![AliceEffect::BroadcastPunish]);
                (AliceState::BtcPunishable { lock_height }, effects, None)
            } else {
                (AliceState::BtcPunishable { lock_height }, effects, None)
            }
        },
        (AliceState::BtcRefunded, AliceEvent::XmrSweepDone) => (
            AliceState::XmrRefunded,
            effects,
            None,
        ),
        (AliceState::BtcPunishable { lock_height }, AliceEvent::TxPunishConfirmed) => (
            AliceState::BtcPunished,
            effects,
            None,
        ),
        (s, _) => (s, effects, Some(ProtocolError::UnexpectedMessage)),
    }
}

/// Progress is monotone: no event moves Alice's machine backwards along the
/// protocol's order, so resuming from a persisted state and replaying any
/// events — duplicated ones included — only ever carries the swap forward.
pub proof fn lemma_alice_progress_monotone(p: SwapParams, s: AliceState, e: AliceEvent)
    ensures
        alice_rank(alice_step_spec(p, s, e).0) >= alice_rank(s),
{
}

/// A terminal state absorbs every event: nothing more is done and nothing
/// changes.
pub proof fn lemma_alice_terminal_absorbs(p: SwapParams, s: AliceState, e: AliceEvent)
    requires
        alice_is_terminal(s),
    ensures
        alice_step_spec(p, s, e).0 == s,
        alice_step_spec(p, s, e).1 == Seq::<AliceEffect>::empty(),
{
    assert(alice_step_spec(p, s, e).1 =~= Seq::<AliceEffect>::empty());
}

/// The punish transaction is only ever broadcast — first or again — after
/// the whole punish timelock has elapsed since lock confirmation.
pub proof fn lemma_alice_punish_safety(p: SwapParams, s: AliceState, e: AliceEvent)
    ensures
        alice_step_spec(p, s, e).1.contains(AliceEffect::BroadcastPunish)
            ==> (e matches AliceEvent::Tick { height }
                && exists|lh: u64|
                    #[trigger] alice_lock_height(s) == Some(lh)
                        && height >= lh + p.cancel_timelock + p.punish_timelock
                        && (s is BtcCancelled || s is BtcPunishable)),
{
}

/// The cancel transaction is only ever broadcast after the cancel timelock
/// has elapsed since lock confirmation.
pub proof fn lemma_alice_cancel_safety(p: SwapParams, s: AliceState, e: AliceEvent)
    ensures
        alice_step_spec(p, s, e).1.contains(AliceEffect::BroadcastCancel)
            ==> (e matches AliceEvent::Tick { height }
                && exists|lh: u64|
                    #[trigger] alice_lock_height(s) == Some(lh)
                        && height >= lh + p.cancel_timelock),
{
}

/// The lock confirmation height a state remembers, if any.
pub open spec fn alice_lock_height(s: AliceState) -> Option<u64> {
    match s {
        AliceState::XmrLockPending { lock_height } => Some(lock_height),
        AliceState::XmrLocked { lock_height } => Some(lock_height),
        AliceState::EncSigLearned { lock_height, .. } => Some(lock_height),
        AliceState::CancelTimelockExpired { lock_height } => Some(lock_height),
        AliceState::BtcCancelled { lock_height } => Some(lock_height),
        AliceState::BtcPunishable { lock_height } => Some(lock_height),
        _ => None,
    }
}

} // verus!
