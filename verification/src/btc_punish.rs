//! The punish transaction: Alice's timelocked sweep of the cancel output.
//!
//! If Bob abandons the swap after cancellation instead of refunding,
//! `BtcPunish` lets Alice take the cancelled coins to her punishment
//! address once a further `punish_timelock` blocks have passed, carried as
//! the input's relative-timelock sequence number. Bob signed it plainly at
//! handshake, so Alice completes it alone.

use vstd::prelude::*;

use crate::btc_cancel::{cosigned_witness, BtcCancel};
use crate::btc_redeem::{BuildError, CompleteError, SIGHASH_ALL_BYTE};
use crate::bytes::{copy_bytes, lex_le_exec};
use crate::crypto::{compact_ok, point_of, point_ok, scalar_ok, sig_ok, sign_of, verify_ok};
use crate::transaction::{sighash_of, sighash_1in_1out, txid_of, txid_1in_1out, OutPoint, Transaction, TxIn, TxOut};
use crate::{DUST_AMOUNT, TX_FEE};

verus! {

/// The punish transaction, before its witness is filled in.
#[derive(Debug, PartialEq, Eq)]
pub struct BtcPunish {
    /// The unsigned spend of the cancel output, `sequence` set to the
    /// punish timelock.
    pub inner: Transaction,
    /// The BIP-143 digest its signatures commit to.
    pub digest: Vec<u8>,
    /// The witness script of the cancel output, also its script code.
    pub lock_script: Vec<u8>,
    /// The script pubkey of the punishment output.
    pub watch_script: Vec<u8>,
    /// The amount held by the cancel output being spent.
    pub input_amount: u64,
}

impl BtcPunish {
    /// Shape every punish transaction built by `new` has.
    pub open spec fn wf(self) -> bool {
        &&& self.inner.version == 2
        &&& self.inner.lock_time == 0
        &&& self.inner.input@.len() == 1
        &&& self.inner.output@.len() == 1
        &&& self.inner.input@[0].previous_output.txid@.len() == 32
        &&& self.input_amount > TX_FEE + DUST_AMOUNT
        &&& self.inner.output@[0].value == self.input_amount - TX_FEE
        &&& self.inner.output@[0].script_pubkey@ == self.watch_script@
        &&& self.digest@.len() == 32
    }

    /// Whether completion with these arguments succeeds.
    pub open spec fn can_complete(self, x: Seq<u8>, other_pk: Seq<u8>, other_sig: Seq<u8>) -> bool {
        &&& self.inner.input@[0].witness@.len() == 0
        &&& scalar_ok(x)
        &&& point_ok(other_pk)
        &&& sig_ok(other_sig)
        &&& compact_ok(other_sig)
        &&& verify_ok(other_pk, self.digest@, other_sig)
    }

    /// Builds the punish transaction spending the cancel output to
    /// `punish_address` (given as its script pubkey), the amount less the
    /// fee, valid `punish_timelock` blocks after the cancel confirmed.
    pub fn new(tx_cancel: &BtcCancel, punish_address: &Vec<u8>, punish_timelock: u32) -> (r:
        Result<BtcPunish, BuildError>)
        requires
            tx_cancel.wf(),
            punish_timelock >= 1,
        ensures
            r is Ok <==> tx_cancel.inner.output@[0].value > TX_FEE + DUST_AMOUNT,
            r matches Err(e) ==> e is Underflow,
            r matches Ok(t) ==> ({
                let cancel_txid = txid_of(
                    tx_cancel.inner.version, tx_cancel.inner.lock_time,
                    tx_cancel.inner.input@[0].previous_output.txid@,
                    tx_cancel.inner.input@[0].previous_output.vout,
                    tx_cancel.inner.input@[0].sequence, tx_cancel.inner.output@[0].value,
                    tx_cancel.inner.output@[0].script_pubkey@,
                );
                &&& t.wf()
                &&& t.inner.input@[0].witness@.len() == 0
                &&& t.watch_script@ == punish_address@
                &&& t.lock_script@ == tx_cancel.lock_script@
                &&& t.inner.input@[0].previous_output.txid@ == cancel_txid
                &&& t.inner.input@[0].previous_output.vout == 0
                &&& t.inner.input@[0].sequence == punish_timelock
                &&& t.input_amount == tx_cancel.inner.output@[0].value
                &&& t.digest@ == sighash_of(
                    2, 0, cancel_txid, 0, punish_timelock, (t.input_amount - TX_FEE) as u64,
                    punish_address@, tx_cancel.lock_script@, t.input_amount,
                )
            }),
    {
        let amount = tx_cancel.inner.output[0].value;
        if amount <= TX_FEE + DUST_AMOUNT {
            return Err(BuildError::Underflow);
        }
        let out_value = amount - TX_FEE;
        let prev = tx_cancel.as_outpoint();
        let digest = sighash_1in_1out(
            2, 0, &prev.txid, 0, punish_timelock, out_value, punish_address,
            &tx_cancel.lock_script, amount,
        ).unwrap();
        let mut input: Vec<TxIn> = Vec::new();
        input.push(TxIn { previous_output: prev, sequence: punish_timelock, witness: Vec::new() });
        let mut output: Vec<TxOut> = Vec::new();
        output.push(TxOut { value: out_value, script_pubkey: copy_bytes(punish_address) });
        Ok(BtcPunish {
            inner: Transaction { version: 2, lock_time: 0, input, output },
            digest,
            lock_script: copy_bytes(&tx_cancel.lock_script),
            watch_script: copy_bytes(punish_address),
            input_amount: amount,
        })
    }

    /// The digest the punish signatures commit to.
    pub fn digest(&self) -> (r: Vec<u8>)
        ensures
            r@ == self.digest@,
    {
        copy_bytes(&self.digest)
    }

    /// Completes the punish transaction from Alice's secret key and the
    /// plain signature Bob handed over at handshake, filling the witness
    /// stack in lexicographic-by-public-key order.
    pub fn complete(&self, x: &Vec<u8>, other_pk: &Vec<u8>, other_sig: &Vec<u8>) -> (r: Result<
        Transaction,
        CompleteError,
    >)
        requires
            self.wf(),
        ensures
            r is Ok <==> self.can_complete(x@, other_pk@, other_sig@),
            r matches Ok(tx) ==> ({
                let w = cosigned_witness(x@, other_pk@, self.digest@, other_sig@, self.lock_script@);
                &&& tx.version == self.inner.version
                &&& tx.lock_time == self.inner.lock_time
                &&& tx.input@.len() == 1
                &&& tx.input@[0].previous_output.txid@
                    == self.inner.input@[0].previous_output.txid@
                &&& tx.input@[0].previous_output.vout == self.inner.input@[0].previous_output.vout
                &&& tx.input@[0].sequence == self.inner.input@[0].sequence
                &&& tx.input@[0].witness@.len() == 3
                &&& tx.input@[0].witness@[0]@ == w[0]
                &&& tx.input@[0].witness@[1]@ == w[1]
                &&& tx.input@[0].witness@[2]@ == self.lock_script@
                &&& tx.output@.len() == 1
                &&& tx.output@[0].value == self.inner.output@[0].value
                &&& tx.output@[0].script_pubkey@ == self.inner.output@[0].script_pubkey@
                &&& verify_ok(point_of(x@), self.digest@, sign_of(x@, self.digest@))
                &&& verify_ok(other_pk@, self.digest@, other_sig@)
            }),
            r matches Err(e) ==> ({
                let unsigned = self.inner.input@[0].witness@.len() == 0;
                &&& (e is AlreadySigned <==> !unsigned)
                &&& (e is InvalidKey <==> (unsigned && !scalar_ok(x@)))
                &&& (e is BadSignature <==> (unsigned && scalar_ok(x@)
                    && !(point_ok(other_pk@) && sig_ok(other_sig@) && compact_ok(other_sig@)
                        && verify_ok(other_pk@, self.digest@, other_sig@))))
            }),
    {
        if self.inner.input[0].witness.len() > 0 {
            return Err(CompleteError::AlreadySigned);
        }
        let xpk = match crate::crypto::public_key_for(x) {
            Some(p) => p,
            None => {
                return Err(CompleteError::InvalidKey);
            },
        };
        let ok = match crate::crypto::verify_sig(other_pk, &self.digest, other_sig) {
            Some(v) => v,
            None => {
                return Err(CompleteError::BadSignature);
            },
        };
        if !ok {
            return Err(CompleteError::BadSignature);
        }
        let mut other = match crate::crypto::sig_to_der(other_sig) {
            Some(d) => d,
            None => {
                return Err(CompleteError::BadSignature);
            },
        };
        other.push(SIGHASH_ALL_BYTE);
        let own_sig = crate::crypto::sign(x, &self.digest).unwrap();
        let mut own = crate::crypto::sig_to_der(&own_sig).unwrap();
        own.push(SIGHASH_ALL_BYTE);
        let mut witness: Vec<Vec<u8>> = Vec::new();
        if lex_le_exec(&xpk, other_pk) {
            witness.push(own);
            witness.push(other);
        } else {
            witness.push(other);
            witness.push(own);
        }
        witness.push(copy_bytes(&self.lock_script));
        let mut input: Vec<TxIn> = Vec::new();
        input.push(TxIn {
            previous_output: OutPoint {
                txid: copy_bytes(&self.inner.input[0].previous_output.txid),
                vout: self.inner.input[0].previous_output.vout,
            },
            sequence: self.inner.input[0].sequence,
            witness,
        });
        let mut output: Vec<TxOut> = Vec::new();
        output.push(TxOut {
            value: self.inner.output[0].value,
            script_pubkey: copy_bytes(&self.inner.output[0].script_pubkey),
        });
        Ok(Transaction {
            version: self.inner.version,
            lock_time: self.inner.lock_time,
            input,
            output,
        })
    }

    /// The id of the punish transaction.
    pub fn txid(&self) -> (r: Vec<u8>)
        requires
            self.wf(),
        ensures
            r@ == txid_of(
                self.inner.version, self.inner.lock_time,
                self.inner.input@[0].previous_output.txid@,
                self.inner.input@[0].previous_output.vout, self.inner.input@[0].sequence,
                self.inner.output@[0].value, self.inner.output@[0].script_pubkey@,
            ),
            r@.len() == 32,
    {
        txid_1in_1out(
            self.inner.version,
            self.inner.lock_time,
            &self.inner.input[0].previous_output.txid,
            self.inner.input[0].previous_output.vout,
            self.inner.input[0].sequence,
            self.inner.output[0].value,
            &self.inner.output[0].script_pubkey,
        ).unwrap()
    }

    /// The script watched to see the punishment output confirmed.
    pub fn script(&self) -> (r: Vec<u8>)
        ensures
            r@ == self.watch_script@,
    {
        copy_bytes(&self.watch_script)
    }
}

} // verus!
