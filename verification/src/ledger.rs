//! Balance accounting for the three ways a swap can end.
//!
//! Amounts are satoshi on the Bitcoin side and piconero on the Monero side.
//! Every on-chain hop between the five transactions costs the fixed fee:
//! redeeming costs one fee out of the locked amount; the refund path spends
//! lock to cancel and cancel to refund, two fees; the punish path likewise
//! two. Bob additionally paid the lock transaction's own mining fee, and
//! Alice the Monero lock fee.

use vstd::prelude::*;

use crate::protocol::SwapParams;
use crate::TX_FEE;

verus! {

/// The two parties' holdings on both chains.
#[derive(Clone, Copy, Debug, PartialEq, Eq, Structural)]
pub struct Balances {
    /// Alice's BTC, in satoshi.
    pub alice_btc: u64,
    /// Bob's BTC, in satoshi.
    pub bob_btc: u64,
    /// Alice's XMR, in piconero.
    pub alice_xmr: u64,
    /// Bob's XMR, in piconero.
    pub bob_xmr: u64,
}

/// The chain fees outside the fixed per-hop fee.
#[derive(Clone, Copy, Debug, PartialEq, Eq, Structural)]
pub struct Fees {
    /// Mining fee Bob paid for the lock transaction itself.
    pub btc_lock_fee: u64,
    /// Fee Alice paid for the Monero lock transaction.
    pub xmr_lock_fee: u64,
}

/// How the swap ended.
#[derive(Clone, Copy, Debug, PartialEq, Eq, Structural)]
pub enum Outcome {
    /// Alice redeemed the BTC; Bob swept the XMR.
    Redeemed,
    /// The swap was cancelled and refunded before Alice locked any XMR.
    RefundedBeforeXmrLock,
    /// The swap was cancelled and refunded after the XMR lock; Alice's XMR
    /// stays in the shared Monero output until she reclaims it with the key
    /// half learned from the refund spend.
    RefundedAfterXmrLock,
    /// Bob abandoned after the XMR lock and Alice punished: she holds the
    /// locked BTC, and the XMR stays locked away from both.
    Punished,
}

/// The final holdings, each as an unbounded integer:
/// (alice_btc, bob_btc, alice_xmr, bob_xmr).
pub open spec fn settle_spec(o: Outcome, start: Balances, p: SwapParams, f: Fees) -> (
    int,
    int,
    int,
    int,
) {
    match o {
        Outcome::Redeemed => (
            start.alice_btc + p.btc_amount - TX_FEE,
            start.bob_btc - p.btc_amount - f.btc_lock_fee,
            start.alice_xmr - p.xmr_amount - f.xmr_lock_fee,
            start.bob_xmr + p.xmr_amount,
        ),
        Outcome::RefundedBeforeXmrLock => (
            start.alice_btc as int,
            start.bob_btc - 2 * TX_FEE - f.btc_lock_fee,
            start.alice_xmr as int,
            start.bob_xmr as int,
        ),
        Outcome::RefundedAfterXmrLock => (
            start.alice_btc as int,
            start.bob_btc - 2 * TX_FEE - f.btc_lock_fee,
            start.alice_xmr - p.xmr_amount - f.xmr_lock_fee,
            start.bob_xmr as int,
        ),
        Outcome::Punished => (
            start.alice_btc + p.btc_amount - 2 * TX_FEE,
            start.bob_btc - p.btc_amount - f.btc_lock_fee,
            start.alice_xmr - p.xmr_amount - f.xmr_lock_fee,
            start.bob_xmr as int,
        ),
    }
}

/// Whether all four final holdings fit a u64.
pub open spec fn settle_fits(o: Outcome, start: Balances, p: SwapParams, f: Fees) -> bool {
    let (a, b, c, d) = settle_spec(o, start, p, f);
    &&& 0 <= a <= u64::MAX
    &&& 0 <= b <= u64::MAX
    &&& 0 <= c <= u64::MAX
    &&& 0 <= d <= u64::MAX
}

/// `base + plus - minus1 - minus2`, or `None` when the result leaves u64.
fn add_sub(base: u64, plus: u64, minus1: u64, minus2: u64) -> (r: Option<u64>)
    ensures
        r is Some <==> (0 <= base + plus - minus1 - minus2 <= u64::MAX),
        r matches Some(v) ==> v == base + plus - minus1 - minus2,
{
    let t = base as u128 + plus as u128;
    let m = minus1 as u128 + minus2 as u128;
    if t < m {
        None
    } else if t - m > u64::MAX as u128 {
        None
    } else {
        Some((t - m) as u64)
    }
}

/// The final holdings after a swap that ended as `o`, or `None` when a
/// balance would leave u64.
pub fn settle(o: Outcome, start: &Balances, p: &SwapParams, f: &Fees) -> (r: Option<Balances>)
    ensures
        r is Some <==> settle_fits(o, *start, *p, *f),
        r matches Some(b) ==> ({
            let (ab, bb, ax, bx) = settle_spec(o, *start, *p, *f);
            b.alice_btc == ab && b.bob_btc == bb && b.alice_xmr == ax && b.bob_xmr == bx
        }),
{
    let (ab, bb, ax, bx) = match o {
        Outcome::Redeemed => (
            add_sub(start.alice_btc, p.btc_amount, TX_FEE, 0),
            add_sub(start.bob_btc, 0, p.btc_amount, f.btc_lock_fee),
            add_sub(start.alice_xmr, 0, p.xmr_amount, f.xmr_lock_fee),
            add_sub(start.bob_xmr, p.xmr_amount, 0, 0),
        ),
        Outcome::RefundedBeforeXmrLock => (
            add_sub(start.alice_btc, 0, 0, 0),
            add_sub(start.bob_btc, 0, 2 * TX_FEE, f.btc_lock_fee),
            add_sub(start.alice_xmr, 0, 0, 0),
            add_sub(start.bob_xmr, 0, 0, 0),
        ),
        Outcome::RefundedAfterXmrLock => (
            add_sub(start.alice_btc, 0, 0, 0),
            add_sub(start.bob_btc, 0, 2 * TX_FEE, f.btc_lock_fee),
            add_sub(start.alice_xmr, 0, p.xmr_amount, f.xmr_lock_fee),
            add_sub(start.bob_xmr, 0, 0, 0),
        ),
        Outcome::Punished => (
            add_sub(start.alice_btc, p.btc_amount, 2 * TX_FEE, 0),
            add_sub(start.bob_btc, 0, p.btc_amount, f.btc_lock_fee),
            add_sub(start.alice_xmr, 0, p.xmr_amount, f.xmr_lock_fee),
            add_sub(start.bob_xmr, 0, 0, 0),
        ),
    };
    match (ab, bb, ax, bx) {
        (Some(ab), Some(bb), Some(ax), Some(bx)) => Some(Balances {
            alice_btc: ab,
            bob_btc: bb,
            alice_xmr: ax,
            bob_xmr: bx,
        }),
        _ => None,
    }
}

/// When both parties follow the protocol and the swap redeems, Alice's BTC
/// grow by the swapped amount less one fee, and Bob's XMR by no less than
/// the swapped amount less the Monero lock fee.
pub proof fn lemma_redeem_balances(start: Balances, p: SwapParams, f: Fees)
    ensures
        settle_spec(Outcome::Redeemed, start, p, f).0 == start.alice_btc + p.btc_amount - TX_FEE,
        settle_spec(Outcome::Redeemed, start, p, f).3 >= start.bob_xmr + p.xmr_amount
            - f.xmr_lock_fee,
{
}

/// When Alice abandons after the XMR lock and Bob cancels and refunds before
/// the punish timelock, Bob's BTC shrink only by the two hop fees and the
/// lock mining fee, and Alice's XMR sit exactly one locked amount below her
/// start, reclaimable with the key half she learns from the refund spend.
pub proof fn lemma_refund_balances(start: Balances, p: SwapParams, f: Fees)
    ensures
        settle_spec(Outcome::RefundedAfterXmrLock, start, p, f).1 == start.bob_btc - 2 * TX_FEE
            - f.btc_lock_fee,
        settle_spec(Outcome::RefundedAfterXmrLock, start, p, f).2 == start.alice_xmr - p.xmr_amount
            - f.xmr_lock_fee,
        settle_spec(Outcome::RefundedAfterXmrLock, start, p, f).3 == start.bob_xmr,
{
}

/// When Alice punishes, her BTC grow by the locked amount less the two hop
/// fees, Bob's XMR are unchanged, and Bob's BTC sit one locked amount and
/// one lock mining fee below his start.
pub proof fn lemma_punish_balances(start: Balances, p: SwapParams, f: Fees)
    ensures
        settle_spec(Outcome::Punished, start, p, f).0 == start.alice_btc + p.btc_amount - 2
            * TX_FEE,
        settle_spec(Outcome::Punished, start, p, f).3 == start.bob_xmr,
        settle_spec(Outcome::Punished, start, p, f).1 == start.bob_btc - p.btc_amount
            - f.btc_lock_fee,
{
}

} // verus!
