//! The cancel transaction: the timelocked escape from the shared output.
//!
//! `BtcCancel` spends the lock transaction's shared output back into a
//! second 2-of-2 output under the same two keys, and becomes valid only
//! `cancel_timelock` blocks after the lock confirmed, carried as the
//! input's relative-timelock sequence number. Both parties exchange plain
//! signatures on it at handshake, so either can complete and broadcast it
//! alone once the timelock expires.

use vstd::prelude::*;

use crate::btc_lock::BtcLock;
use crate::btc_redeem::{wit_elem_of, BuildError, CompleteError, SIGHASH_ALL_BYTE};
use crate::bytes::{copy_bytes, lex_le, lex_le_exec};
use crate::crypto::{compact_ok, point_of, point_ok, scalar_ok, sig_ok, sign_of, verify_ok};
use crate::script::{shared_script, shared_script_of, shared_spk, shared_spk_of};
use crate::transaction::{sighash_of, sighash_1in_1out, txid_of, txid_1in_1out, OutPoint, Transaction, TxIn, TxOut};
use crate::{DUST_AMOUNT, TX_FEE};

verus! {

/// The witness stack of a spend completed from one party's own key and the
/// counterparty's plain signature, arranged with the signature under the
/// lexicographically smaller public key first, then the witness script.
/// This satisfies the shared script, which names the larger key first and
/// so checks it against the last-pushed signature element.
pub open spec fn cosigned_witness(
    x: Seq<u8>,
    other_pk: Seq<u8>,
    digest: Seq<u8>,
    other_sig: Seq<u8>,
    script: Seq<u8>,
) -> Seq<Seq<u8>> {
    let own = wit_elem_of(sign_of(x, digest));
    let other = wit_elem_of(other_sig);
    if lex_le(point_of(x), other_pk) {
        seq![own, other, script]
    } else {
        seq![other, own, script]
    }
}

/// The cancel transaction, before its witness is filled in.
#[derive(Debug, PartialEq, Eq)]
pub struct BtcCancel {
    /// The unsigned spend of the shared output, `sequence` set to the
    /// cancel timelock.
    pub inner: Transaction,
    /// The BIP-143 digest its signatures commit to.
    pub digest: Vec<u8>,
    /// The witness script of the lock output being spent, also its script
    /// code.
    pub lock_script: Vec<u8>,
    /// The amount held by the shared output being spent.
    pub lock_amount: u64,
}

impl BtcCancel {
    /// Shape every cancel transaction built by `new` has.
    pub open spec fn wf(self) -> bool {
        &&& self.inner.version == 2
        &&& self.inner.lock_time == 0
        &&& self.inner.input@.len() == 1
        &&& self.inner.output@.len() == 1
        &&& self.inner.input@[0].previous_output.txid@.len() == 32
        &&& self.lock_amount > TX_FEE + DUST_AMOUNT
        &&& self.inner.output@[0].value == self.lock_amount - TX_FEE
        &&& self.digest@.len() == 32
    }

    /// Whether completion with these arguments succeeds.
    pub open spec fn can_complete(self, x: Seq<u8>, other_pk: Seq<u8>, other_sig: Seq<u8>) -> bool {
        &&& self.inner.input@[0].witness@.len() == 0
        &&& scalar_ok(x)
        &&& point_ok(other_pk)
        &&& sig_ok(other_sig)
        &&& compact_ok(other_sig)
        &&& verify_ok(other_pk, self.digest@, other_sig)
    }

    /// Builds the cancel transaction spending the shared output of `tx_lock`
    /// back into a second 2-of-2 output under the same keys, valid
    /// `cancel_timelock` blocks after the lock confirmed.
    pub fn new(tx_lock: &BtcLock, cancel_timelock: u32) -> (r: Result<BtcCancel, BuildError>)
        requires
            tx_lock.output@.len() <= 0xFFFF_FFFF,
            cancel_timelock >= 1,
        ensures
            r matches Ok(t) ==> ({
                let i = t.inner.input@[0].previous_output.vout as int;
                &&& t.wf()
                &&& t.inner.input@[0].witness@.len() == 0
                &&& t.lock_script@ == shared_script_of(tx_lock.pk_a@, tx_lock.pk_b@)
                &&& t.inner.output@[0].script_pubkey@ == shared_spk_of(
                    tx_lock.pk_a@, tx_lock.pk_b@,
                )
                &&& t.inner.input@[0].previous_output.txid@ == tx_lock.txid@
                &&& t.inner.input@[0].sequence == cancel_timelock
                &&& 0 <= i < tx_lock.output@.len()
                &&& tx_lock.output@[i].script_pubkey@ == tx_lock.shared_spk_spec()
                &&& (forall|j: int|
                    0 <= j < i ==> tx_lock.output@[j].script_pubkey@ != tx_lock.shared_spk_spec())
                &&& t.lock_amount == tx_lock.output@[i].value
                &&& t.digest@ == sighash_of(
                    2, 0, tx_lock.txid@, t.inner.input@[0].previous_output.vout, cancel_timelock,
                    (t.lock_amount - TX_FEE) as u64, t.inner.output@[0].script_pubkey@,
                    t.lock_script@, t.lock_amount,
                )
            }),
            r matches Err(e) ==> ({
                let missing = tx_lock.txid@.len() != 32 || (forall|j: int|
                    0 <= j < tx_lock.output@.len()
                        ==> tx_lock.output@[j].script_pubkey@ != tx_lock.shared_spk_spec());
                &&& (e is BadDescriptor <==> missing)
                &&& (e is Underflow ==> !missing)
            }),
            r is Err <==> (tx_lock.txid@.len() != 32
                || (forall|j: int|
                    0 <= j < tx_lock.output@.len()
                        ==> tx_lock.output@[j].script_pubkey@ != tx_lock.shared_spk_spec())
                || (exists|i: int|
                    0 <= i < tx_lock.output@.len()
                        && #[trigger] tx_lock.output@[i].script_pubkey@
                            == tx_lock.shared_spk_spec()
                        && (forall|j: int|
                            0 <= j < i
                                ==> tx_lock.output@[j].script_pubkey@
                                    != tx_lock.shared_spk_spec())
                        && tx_lock.output@[i].value <= TX_FEE + DUST_AMOUNT)),
    {
        if tx_lock.txid.len() != 32 {
            return Err(BuildError::BadDescriptor);
        }
        let vout = match tx_lock.lock_output_vout() {
            Some(i) => i,
            None => {
                return Err(BuildError::BadDescriptor);
            },
        };
        let amount = tx_lock.output[vout].value;
        if amount <= TX_FEE + DUST_AMOUNT {
            return Err(BuildError::Underflow);
        }
        let out_value = amount - TX_FEE;
        let ws = shared_script(&tx_lock.pk_a, &tx_lock.pk_b);
        let spk = shared_spk(&tx_lock.pk_a, &tx_lock.pk_b);
        let digest = sighash_1in_1out(
            2, 0, &tx_lock.txid, vout as u32, cancel_timelock, out_value, &spk, &ws, amount,
        ).unwrap();
        let mut input: Vec<TxIn> = Vec::new();
        input.push(TxIn {
            previous_output: OutPoint { txid: copy_bytes(&tx_lock.txid), vout: vout as u32 },
            sequence: cancel_timelock,
            witness: Vec::new(),
        });
        let mut output: Vec<TxOut> = Vec::new();
        output.push(TxOut { value: out_value, script_pubkey: spk });
        Ok(BtcCancel {
            inner: Transaction { version: 2, lock_time: 0, input, output },
            digest,
            lock_script: ws,
            lock_amount: amount,
        })
    }

    /// The id of the cancel transaction.
    pub fn txid(&self) -> (r: Vec<u8>)
        requires
            self.wf(),
        ensures
            r@ == txid_of(
                self.inner.version, self.inner.lock_time,
                self.inner.input@[0].previous_output.txid@,
                self.inner.input@[0].previous_output.vout, self.inner.input@[0].sequence,
                self.inner.output@[0].value, self.inner.output@[0].script_pubkey@,
            ),
            r@.len() == 32,
    {
        txid_1in_1out(
            self.inner.version,
            self.inner.lock_time,
            &self.inner.input[0].previous_output.txid,
            self.inner.input[0].previous_output.vout,
            self.inner.input[0].sequence,
            self.inner.output[0].value,
            &self.inner.output[0].script_pubkey,
        ).unwrap()
    }

    /// The cancel transaction's only output, for the refund or punish spend
    /// to reference.
    pub fn as_outpoint(&self) -> (r: OutPoint)
        requires
            self.wf(),
        ensures
            r.txid@ == txid_of(
                self.inner.version, self.inner.lock_time,
                self.inner.input@[0].previous_output.txid@,
                self.inner.input@[0].previous_output.vout, self.inner.input@[0].sequence,
                self.inner.output@[0].value, self.inner.output@[0].script_pubkey@,
            ),
            r.txid@.len() == 32,
            r.vout == 0,
    {
        OutPoint { txid: self.txid(), vout: 0 }
    }

    /// The digest the cancel signatures commit to.
    pub fn digest(&self) -> (r: Vec<u8>)
        ensures
            r@ == self.digest@,
    {
        copy_bytes(&self.digest)
    }

    /// Completes the cancel transaction from one party's own secret key and
    /// the plain signature the counterparty handed over at handshake,
    /// filling the witness stack in lexicographic-by-public-key order.
    pub fn complete(&self, x: &Vec<u8>, other_pk: &Vec<u8>, other_sig: &Vec<u8>) -> (r: Result<
        Transaction,
        CompleteError,
    >)
        requires
            self.wf(),
        ensures
            r is Ok <==> self.can_complete(x@, other_pk@, other_sig@),
            r matches Ok(tx) ==> ({
                let w = cosigned_witness(x@, other_pk@, self.digest@, other_sig@, self.lock_script@);
                &&& tx.version == self.inner.version
                &&& tx.lock_time == self.inner.lock_time
                &&& tx.input@.len() == 1
                &&& tx.input@[0].previous_output.txid@
                    == self.inner.input@[0].previous_output.txid@
                &&& tx.input@[0].previous_output.vout == self.inner.input@[0].previous_output.vout
                &&& tx.input@[0].sequence == self.inner.input@[0].sequence
                &&& tx.input@[0].witness@.len() == 3
                &&& tx.input@[0].witness@[0]@ == w[0]
                &&& tx.input@[0].witness@[1]@ == w[1]
                &&& tx.input@[0].witness@[2]@ == self.lock_script@
                &&& tx.output@.len() == 1
                &&& tx.output@[0].value == self.inner.output@[0].value
                &&& tx.output@[0].script_pubkey@ == self.inner.output@[0].script_pubkey@
                &&& verify_ok(point_of(x@), self.digest@, sign_of(x@, self.digest@))
                &&& verify_ok(other_pk@, self.digest@, other_sig@)
            }),
            r matches Err(e) ==> ({
                let unsigned = self.inner.input@[0].witness@.len() == 0;
                &&& (e is AlreadySigned <==> !unsigned)
                &&& (e is InvalidKey <==> (unsigned && !scalar_ok(x@)))
                &&& (e is BadSignature <==> (unsigned && scalar_ok(x@)
                    && !(point_ok(other_pk@) && sig_ok(other_sig@) && compact_ok(other_sig@)
                        && verify_ok(other_pk@, self.digest@, other_sig@))))
            }),
    {
        if self.inner.input[0].witness.len() > 0 {
            return Err(CompleteError::AlreadySigned);
        }
        let xpk = match crate::crypto::public_key_for(x) {
            Some(p) => p,
            None => {
                return Err(CompleteError::InvalidKey);
            },
        };
        let ok = match crate::crypto::verify_sig(other_pk, &self.digest, other_sig) {
            Some(v) => v,
            None => {
                return Err(CompleteError::BadSignature);
            },
        };
        if !ok {
            return Err(CompleteError::BadSignature);
        }
        let mut other = match crate::crypto::sig_to_der(other_sig) {
            Some(d) => d,
            None => {
                return Err(CompleteError::BadSignature);
            },
        };
        other.push(SIGHASH_ALL_BYTE);
        let own_sig = crate::crypto::sign(x, &self.digest).unwrap();
        let mut own = crate::crypto::sig_to_der(&own_sig).unwrap();
        own.push(SIGHASH_ALL_BYTE);
        let mut witness: Vec<Vec<u8>> = Vec::new();
        if lex_le_exec(&xpk, other_pk) {
            witness.push(own);
            witness.push(other);
        } else {
            witness.push(other);
            witness.push(own);
        }
        witness.push(copy_bytes(&self.lock_script));
        let mut input: Vec<TxIn> = Vec::new();
        input.push(TxIn {
            previous_output: OutPoint {
                txid: copy_bytes(&self.inner.input[0].previous_output.txid),
                vout: self.inner.input[0].previous_output.vout,
            },
            sequence: self.inner.input[0].sequence,
            witness,
        });
        let mut output: Vec<TxOut> = Vec::new();
        output.push(TxOut {
            value: self.inner.output[0].value,
            script_pubkey: copy_bytes(&self.inner.output[0].script_pubkey),
        });
        Ok(Transaction {
            version: self.inner.version,
            lock_time: self.inner.lock_time,
            input,
            output,
        })
    }
}

} // verus!
