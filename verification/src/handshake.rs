//! The handshake's derivation and receipt checks.
//!
//! Once the lock transaction is known, each party independently derives the
//! same four spends of it — redeem, cancel, refund, punish — from the shared
//! keys, the two addresses and the two timelocks. Every signature the
//! counterparty hands over during the handshake is checked on receipt:
//! an encrypted signature that does not verify, or a plain one, aborts the
//! swap before anything is broadcast.

use vstd::prelude::*;

use crate::btc_cancel::BtcCancel;
use crate::btc_lock::BtcLock;
use crate::btc_punish::BtcPunish;
use crate::btc_redeem::{BtcRedeem, BuildError};
use crate::btc_refund::BtcRefund;
use crate::crypto::{encverify_ok, point_ok, sig_ok, verify_ok};
use crate::script::{shared_script_of, shared_spk_of};
use crate::transaction::{sighash_of, txid_of};
use crate::{DUST_AMOUNT, TX_FEE};

verus! {

/// Why a received signature was rejected.
#[derive(Clone, Copy, Debug, PartialEq, Eq, Structural)]
pub enum CryptoError {
    /// A received encrypted signature does not verify against the agreed
    /// key, statement and digest.
    BadAdaptor,
    /// A received plain signature does not verify against the agreed key
    /// and digest.
    SignatureMismatch,
}

/// The four spends of the lock transaction both parties derive at
/// handshake.
#[derive(Debug, PartialEq, Eq)]
pub struct SwapTransactions {
    /// The happy-path spend to Alice's redeem address.
    pub redeem: BtcRedeem,
    /// The timelocked escape into the second shared output.
    pub cancel: BtcCancel,
    /// Bob's spend of the cancel output to his refund address.
    pub refund: BtcRefund,
    /// Alice's timelocked spend of the cancel output to her punishment
    /// address.
    pub punish: BtcPunish,
}

impl SwapTransactions {
    /// All four transactions are well formed and chained: redeem and cancel
    /// spend the same lock output, refund and punish spend the cancel
    /// transaction's only output, and redeem and refund carry the final
    /// sequence number — the timelocks live on the cancel and punish
    /// spends, whose sequence values the derivation pins.
    pub open spec fn wf(self) -> bool {
        let cancel_txid = txid_of(
            self.cancel.inner.version, self.cancel.inner.lock_time,
            self.cancel.inner.input@[0].previous_output.txid@,
            self.cancel.inner.input@[0].previous_output.vout,
            self.cancel.inner.input@[0].sequence, self.cancel.inner.output@[0].value,
            self.cancel.inner.output@[0].script_pubkey@,
        );
        &&& self.redeem.wf()
        &&& self.cancel.wf()
        &&& self.refund.wf()
        &&& self.punish.wf()
        &&& self.redeem.inner.input@[0].previous_output.txid@
            == self.cancel.inner.input@[0].previous_output.txid@
        &&& self.redeem.inner.input@[0].previous_output.vout
            == self.cancel.inner.input@[0].previous_output.vout
        &&& self.refund.inner.input@[0].previous_output.txid@ == cancel_txid
        &&& self.refund.inner.input@[0].previous_output.vout == 0
        &&& self.punish.inner.input@[0].previous_output.txid@ == cancel_txid
        &&& self.punish.inner.input@[0].previous_output.vout == 0
        &&& self.redeem.inner.input@[0].sequence == 0xFFFF_FFFFu32
        &&& self.refund.inner.input@[0].sequence == 0xFFFF_FFFFu32
    }
}

/// Derives the four spends of `tx_lock`: the redeem spend to
/// `redeem_address`, the cancel spend valid after `cancel_timelock`, the
/// refund spend of the cancel output to `refund_address`, and the punish
/// spend of it to `punish_address` valid a further `punish_timelock` later.
/// Each address is given as its script pubkey. Fails with `BadDescriptor`
/// when the lock transaction carries no shared output, and with `Underflow`
/// when the locked amount cannot pay for two further hops.
#[verifier::rlimit(30)]
pub fn derive_transactions(
    tx_lock: &BtcLock,
    redeem_address: &Vec<u8>,
    refund_address: &Vec<u8>,
    punish_address: &Vec<u8>,
    cancel_timelock: u32,
    punish_timelock: u32,
) -> (r: Result<SwapTransactions, BuildError>)
    requires
        tx_lock.output@.len() <= 0xFFFF_FFFF,
        cancel_timelock >= 1,
        punish_timelock >= 1,
    ensures
        r matches Ok(t) ==> ({
            let vout = t.redeem.inner.input@[0].previous_output.vout;
            let amount = t.redeem.lock_amount;
            let ws = shared_script_of(tx_lock.pk_a@, tx_lock.pk_b@);
            let cancel_txid = txid_of(
                2, 0, tx_lock.txid@, vout, cancel_timelock, (amount - TX_FEE) as u64,
                shared_spk_of(tx_lock.pk_a@, tx_lock.pk_b@),
            );
            &&& t.wf()
            &&& t.redeem.watch_script@ == redeem_address@
            &&& t.refund.watch_script@ == refund_address@
            &&& t.punish.watch_script@ == punish_address@
            &&& t.redeem.inner.input@[0].previous_output.txid@ == tx_lock.txid@
            &&& t.cancel.inner.input@[0].previous_output.txid@ == tx_lock.txid@
            &&& t.refund.inner.input@[0].previous_output.txid@ == cancel_txid
            &&& t.punish.inner.input@[0].previous_output.txid@ == cancel_txid
            &&& t.redeem.inner.input@[0].sequence == 0xFFFF_FFFFu32
            &&& t.cancel.inner.input@[0].sequence == cancel_timelock
            &&& t.refund.inner.input@[0].sequence == 0xFFFF_FFFFu32
            &&& t.punish.inner.input@[0].sequence == punish_timelock
            &&& t.redeem.inner.output@[0].value == amount - TX_FEE
            &&& t.cancel.lock_amount == amount
            &&& t.refund.inner.output@[0].value == amount - 2 * TX_FEE
            &&& t.punish.inner.output@[0].value == amount - 2 * TX_FEE
            &&& t.redeem.digest@ == sighash_of(
                2, 0, tx_lock.txid@, vout, 0xFFFF_FFFF, (amount - TX_FEE) as u64,
                redeem_address@, ws, amount,
            )
            &&& t.cancel.digest@ == sighash_of(
                2, 0, tx_lock.txid@, vout, cancel_timelock, (amount - TX_FEE) as u64,
                shared_spk_of(tx_lock.pk_a@, tx_lock.pk_b@), ws, amount,
            )
            &&& t.refund.digest@ == sighash_of(
                2, 0, cancel_txid, 0, 0xFFFF_FFFF, (amount - 2 * TX_FEE) as u64,
                refund_address@, ws, (amount - TX_FEE) as u64,
            )
            &&& t.punish.digest@ == sighash_of(
                2, 0, cancel_txid, 0, punish_timelock, (amount - 2 * TX_FEE) as u64,
                punish_address@, ws, (amount - TX_FEE) as u64,
            )
        }),
        r is Ok <==> (tx_lock.txid@.len() == 32
            && (exists|i: int|
                0 <= i < tx_lock.output@.len()
                    && #[trigger] tx_lock.output@[i].script_pubkey@ == tx_lock.shared_spk_spec()
                    && (forall|j: int|
                        0 <= j < i
                            ==> tx_lock.output@[j].script_pubkey@ != tx_lock.shared_spk_spec())
                    && tx_lock.output@[i].value > 2 * TX_FEE + DUST_AMOUNT)),
{
    if tx_lock.txid.len() != 32 {
        return Err(BuildError::BadDescriptor);
    }
    let vout = match tx_lock.lock_output_vout() {
        Some(i) => i,
        None => {
            return Err(BuildError::BadDescriptor);
        },
    };
    proof {
        assert forall|i: int|
            (0 <= i < tx_lock.output@.len()
                && tx_lock.output@[i].script_pubkey@ == tx_lock.shared_spk_spec()
                && (forall|j: int|
                    0 <= j < i
                        ==> tx_lock.output@[j].script_pubkey@
                            != tx_lock.shared_spk_spec())) implies i == vout as int by {
            assert(tx_lock.output@[vout as int].script_pubkey@ == tx_lock.shared_spk_spec());
        }
    }
    let amount = tx_lock.output[vout].value;
    if amount <= 2 * TX_FEE + DUST_AMOUNT {
        return Err(BuildError::Underflow);
    }
    let redeem = match BtcRedeem::new(tx_lock, redeem_address) {
        Ok(t) => t,
        Err(_) => {
            proof {
                assert(false);
            }
            return Err(BuildError::Underflow);
        },
    };
    let cancel = match BtcCancel::new(tx_lock, cancel_timelock) {
        Ok(t) => t,
        Err(_) => {
            proof {
                assert(false);
            }
            return Err(BuildError::Underflow);
        },
    };
    assert(cancel.lock_amount == amount);
    let refund = match BtcRefund::new(&cancel, refund_address) {
        Ok(t) => t,
        Err(_) => {
            proof {
                assert(false);
            }
            return Err(BuildError::Underflow);
        },
    };
    let punish = match BtcPunish::new(&cancel, punish_address, punish_timelock) {
        Ok(t) => t,
        Err(_) => {
            proof {
                assert(false);
            }
            return Err(BuildError::Underflow);
        },
    };
    assert(redeem.lock_amount == amount);
    assert(redeem.inner.input@[0].previous_output.vout == vout as u32);
    assert(cancel.inner.input@[0].previous_output.vout == vout as u32);
    Ok(SwapTransactions { redeem, cancel, refund, punish })
}

/// Checks an encrypted signature on receipt, before anything is broadcast:
/// it must verify against the sender's public key `xk`, the agreed
/// statement point and the transaction digest it was promised for.
pub fn receive_encsig(xk: &Vec<u8>, statement: &Vec<u8>, digest: &Vec<u8>, encsig: Vec<u8>) -> (r:
    Result<Vec<u8>, CryptoError>)
    ensures
        r matches Ok(es) ==> (es@ == encsig@
            && encverify_ok(xk@, statement@, digest@, encsig@)),
        r matches Err(e) ==> e is BadAdaptor,
        r is Ok <==> (point_ok(xk@) && point_ok(statement@) && digest@.len() == 32
            && crate::crypto::encsig_ok(encsig@)
            && encverify_ok(xk@, statement@, digest@, encsig@)),
{
    match crate::crypto::verify_encsig(xk, statement, digest, &encsig) {
        Some(true) => Ok(encsig),
        _ => Err(CryptoError::BadAdaptor),
    }
}

/// Checks a plain signature on receipt: it must verify against the sender's
/// public key `xk` and the transaction digest it was promised for.
pub fn receive_sig(xk: &Vec<u8>, digest: &Vec<u8>, sig: Vec<u8>) -> (r: Result<
    Vec<u8>,
    CryptoError,
>)
    ensures
        r matches Ok(s) ==> (s@ == sig@ && verify_ok(xk@, digest@, sig@)),
        r matches Err(e) ==> e is SignatureMismatch,
        r is Ok <==> (point_ok(xk@) && digest@.len() == 32 && sig_ok(sig@)
            && verify_ok(xk@, digest@, sig@)),
{
    match crate::crypto::verify_sig(xk, digest, &sig) {
        Some(true) => Ok(sig),
        _ => Err(CryptoError::SignatureMismatch),
    }
}

} // verus!
