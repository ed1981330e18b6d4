//! The refund transaction: Bob's spend of the cancel output back to his own
//! address.
//!
//! At handshake Alice hands Bob an encrypted signature on this spend whose
//! statement point is the secp256k1 image of Bob's Monero key half, so
//! completing and broadcasting it is what discloses that half: Alice
//! watches the chain, pulls her own decrypted signature back out of the
//! confirmed spend by her key, and recovers `s_b` from it.

use vstd::prelude::*;

use crate::btc_cancel::BtcCancel;
use crate::btc_redeem::{
    completed_witness, extracted_witness_sig, witness_sig_matches, BuildError, CompleteError,
    ExtractError, SIGHASH_ALL_BYTE,
};
use crate::bytes::{copy_bytes, copy_prefix, lex_le_exec};
use crate::crypto::{
    decrypt_of, der_parse_of, encsig_ok, encsign_of, encverify_ok, point_of, point_ok, recoverable,
    scalar_ok, sig_ok, sign_of, verify_ok,
};
use crate::transaction::{sighash_of, sighash_1in_1out, txid_of, txid_1in_1out, OutPoint, Transaction, TxIn, TxOut};
use crate::{DUST_AMOUNT, TX_FEE};

verus! {

/// The refund transaction, before its witness is filled in.
#[derive(Debug, PartialEq, Eq)]
pub struct BtcRefund {
    /// The unsigned spend of the cancel output.
    pub inner: Transaction,
    /// The BIP-143 digest its signatures commit to.
    pub digest: Vec<u8>,
    /// The witness script of the cancel output, also its script code.
    pub lock_script: Vec<u8>,
    /// The script pubkey of the refund output, watched for confirmation.
    pub watch_script: Vec<u8>,
    /// The amount held by the cancel output being spent.
    pub input_amount: u64,
}

impl BtcRefund {
    /// Shape every refund transaction built by `new` has.
    pub open spec fn wf(self) -> bool {
        &&& self.inner.version == 2
        &&& self.inner.lock_time == 0
        &&& self.inner.input@.len() == 1
        &&& self.inner.output@.len() == 1
        &&& self.inner.input@[0].previous_output.txid@.len() == 32
        &&& self.input_amount > TX_FEE + DUST_AMOUNT
        &&& self.inner.output@[0].value == self.input_amount - TX_FEE
        &&& self.inner.output@[0].script_pubkey@ == self.watch_script@
        &&& self.digest@.len() == 32
    }

    /// Whether completion with these arguments succeeds.
    pub open spec fn can_complete(self, x: Seq<u8>, y_half: Seq<u8>, other_pk: Seq<u8>, encsig: Seq<u8>) -> bool {
        &&& self.inner.input@[0].witness@.len() == 0
        &&& scalar_ok(x)
        &&& scalar_ok(y_half)
        &&& point_ok(other_pk)
        &&& encsig_ok(encsig)
        &&& encverify_ok(other_pk, point_of(y_half), self.digest@, encsig)
    }

    /// Builds the refund transaction spending the cancel output to
    /// `refund_address` (given as its script pubkey), the amount less the
    /// fee.
    pub fn new(tx_cancel: &BtcCancel, refund_address: &Vec<u8>) -> (r: Result<
        BtcRefund,
        BuildError,
    >)
        requires
            tx_cancel.wf(),
        ensures
            r is Ok <==> tx_cancel.inner.output@[0].value > TX_FEE + DUST_AMOUNT,
            r matches Err(e) ==> e is Underflow,
            r matches Ok(t) ==> ({
                let cancel_txid = txid_of(
                    tx_cancel.inner.version, tx_cancel.inner.lock_time,
                    tx_cancel.inner.input@[0].previous_output.txid@,
                    tx_cancel.inner.input@[0].previous_output.vout,
                    tx_cancel.inner.input@[0].sequence, tx_cancel.inner.output@[0].value,
                    tx_cancel.inner.output@[0].script_pubkey@,
                );
                &&& t.wf()
                &&& t.inner.input@[0].witness@.len() == 0
                &&& t.watch_script@ == refund_address@
                &&& t.lock_script@ == tx_cancel.lock_script@
                &&& t.inner.input@[0].previous_output.txid@ == cancel_txid
                &&& t.inner.input@[0].previous_output.vout == 0
                &&& t.inner.input@[0].sequence == 0xFFFF_FFFFu32
                &&& t.input_amount == tx_cancel.inner.output@[0].value
                &&& t.digest@ == sighash_of(
                    2, 0, cancel_txid, 0, 0xFFFF_FFFF, (t.input_amount - TX_FEE) as u64,
                    refund_address@, tx_cancel.lock_script@, t.input_amount,
                )
            }),
    {
        let amount = tx_cancel.inner.output[0].value;
        if amount <= TX_FEE + DUST_AMOUNT {
            return Err(BuildError::Underflow);
        }
        let out_value = amount - TX_FEE;
        let prev = tx_cancel.as_outpoint();
        let digest = sighash_1in_1out(
            2, 0, &prev.txid, 0, 0xFFFF_FFFF, out_value, refund_address, &tx_cancel.lock_script,
            amount,
        ).unwrap();
        let mut input: Vec<TxIn> = Vec::new();
        input.push(TxIn { previous_output: prev, sequence: 0xFFFF_FFFF, witness: Vec::new() });
        let mut output: Vec<TxOut> = Vec::new();
        output.push(TxOut { value: out_value, script_pubkey: copy_bytes(refund_address) });
        Ok(BtcRefund {
            inner: Transaction { version: 2, lock_time: 0, input, output },
            digest,
            lock_script: copy_bytes(&tx_cancel.lock_script),
            watch_script: copy_bytes(refund_address),
            input_amount: amount,
        })
    }

    /// The digest the refund signatures commit to.
    pub fn digest(&self) -> (r: Vec<u8>)
        ensures
            r@ == self.digest@,
    {
        copy_bytes(&self.digest)
    }

    /// Alice's encrypted signature on the refund digest, with the secp256k1
    /// image of Bob's Monero key half as the statement point: the signature
    /// Bob can decrypt, and the decryption discloses that half.
    pub fn encsig(&self, a: &Vec<u8>, statement: &Vec<u8>) -> (r: Option<Vec<u8>>)
        requires
            self.wf(),
        ensures
            r is Some <==> (scalar_ok(a@) && point_ok(statement@)),
            r matches Some(es) ==> (es@ == encsign_of(a@, statement@, self.digest@)
                && encsig_ok(es@)
                && encverify_ok(point_of(a@), statement@, self.digest@, es@)),
    {
        crate::crypto::encsign(a, statement, &self.digest)
    }

    /// Completes the refund transaction: verifies Alice's encrypted
    /// signature, decrypts it with Bob's Monero key half `s_b`, signs with
    /// `b`, and fills the witness stack in lexicographic-by-public-key
    /// order.
    pub fn complete(&self, b: &Vec<u8>, s_b: &Vec<u8>, ak: &Vec<u8>, encsig: &Vec<u8>) -> (r:
        Result<Transaction, CompleteError>)
        requires
            self.wf(),
        ensures
            r is Ok <==> self.can_complete(b@, s_b@, ak@, encsig@),
            r matches Ok(tx) ==> ({
                let w = completed_witness(
                    b@, ak@, self.digest@, encsig@, s_b@, self.lock_script@,
                );
                &&& tx.version == self.inner.version
                &&& tx.lock_time == self.inner.lock_time
                &&& tx.input@.len() == 1
                &&& tx.input@[0].previous_output.txid@
                    == self.inner.input@[0].previous_output.txid@
                &&& tx.input@[0].previous_output.vout == self.inner.input@[0].previous_output.vout
                &&& tx.input@[0].sequence == self.inner.input@[0].sequence
                &&& tx.input@[0].witness@.len() == 3
                &&& tx.input@[0].witness@[0]@ == w[0]
                &&& tx.input@[0].witness@[1]@ == w[1]
                &&& tx.input@[0].witness@[2]@ == self.lock_script@
                &&& tx.output@.len() == 1
                &&& tx.output@[0].value == self.inner.output@[0].value
                &&& tx.output@[0].script_pubkey@ == self.inner.output@[0].script_pubkey@
                &&& verify_ok(ak@, self.digest@, decrypt_of(encsig@, s_b@))
                &&& verify_ok(point_of(b@), self.digest@, sign_of(b@, self.digest@))
            }),
            r matches Err(e) ==> ({
                let unsigned = self.inner.input@[0].witness@.len() == 0;
                &&& (e is AlreadySigned <==> !unsigned)
                &&& (e is InvalidKey <==> (unsigned && !(scalar_ok(b@) && scalar_ok(s_b@))))
                &&& (e is BadAdaptor <==> (unsigned && scalar_ok(b@) && scalar_ok(s_b@)
                    && (!point_ok(ak@) || !encsig_ok(encsig@)
                        || !encverify_ok(ak@, point_of(s_b@), self.digest@, encsig@))))
            }),
    {
        if self.inner.input[0].witness.len() > 0 {
            return Err(CompleteError::AlreadySigned);
        }
        let bpk = match crate::crypto::public_key_for(b) {
            Some(p) => p,
            None => {
                return Err(CompleteError::InvalidKey);
            },
        };
        let statement = match crate::crypto::public_key_for(s_b) {
            Some(p) => p,
            None => {
                return Err(CompleteError::InvalidKey);
            },
        };
        let ok = match crate::crypto::verify_encsig(ak, &statement, &self.digest, encsig) {
            Some(v) => v,
            None => {
                return Err(CompleteError::BadAdaptor);
            },
        };
        if !ok {
            return Err(CompleteError::BadAdaptor);
        }
        let sig_b = crate::crypto::sign(b, &self.digest).unwrap();
        let sig_a = crate::crypto::decrypt_signature(s_b, encsig).unwrap();
        let mut wb = crate::crypto::sig_to_der(&sig_b).unwrap();
        wb.push(SIGHASH_ALL_BYTE);
        let mut wa = crate::crypto::sig_to_der(&sig_a).unwrap();
        wa.push(SIGHASH_ALL_BYTE);
        let mut witness: Vec<Vec<u8>> = Vec::new();
        if lex_le_exec(&bpk, ak) {
            witness.push(wb);
            witness.push(wa);
        } else {
            witness.push(wa);
            witness.push(wb);
        }
        witness.push(copy_bytes(&self.lock_script));
        let mut input: Vec<TxIn> = Vec::new();
        input.push(TxIn {
            previous_output: OutPoint {
                txid: copy_bytes(&self.inner.input[0].previous_output.txid),
                vout: self.inner.input[0].previous_output.vout,
            },
            sequence: self.inner.input[0].sequence,
            witness,
        });
        let mut output: Vec<TxOut> = Vec::new();
        output.push(TxOut {
            value: self.inner.output[0].value,
            script_pubkey: copy_bytes(&self.inner.output[0].script_pubkey),
        });
        Ok(Transaction {
            version: self.inner.version,
            lock_time: self.inner.lock_time,
            input,
            output,
        })
    }

    /// Pulls out of an observed refund spend the witness signature that
    /// verifies against `ak` on the refund digest.
    pub fn extract_signature_by_key(&self, candidate: &Transaction, ak: &Vec<u8>) -> (r: Result<
        Vec<u8>,
        ExtractError,
    >)
        requires
            self.wf(),
        ensures
            r matches Ok(s) ==> ({
                let w0 = candidate.input@[0].witness@[0]@;
                let w1 = candidate.input@[0].witness@[1]@;
                &&& candidate.input@.len() == 1
                &&& candidate.input@[0].witness@.len() == 3
                &&& sig_ok(s@) && verify_ok(ak@, self.digest@, s@)
                &&& (witness_sig_matches(w0, ak@, self.digest@) ==> der_parse_of(w0.drop_last())
                    == Some(s@))
                &&& (!witness_sig_matches(w0, ak@, self.digest@) ==> (witness_sig_matches(
                    w1, ak@, self.digest@,
                ) && der_parse_of(w1.drop_last()) == Some(s@)))
            }),
            r matches Err(e) ==> ({
                let n = candidate.input@.len();
                let wn = if n == 1 { candidate.input@[0].witness@.len() } else { 0 };
                &&& (e is NoInputs <==> n == 0)
                &&& (e is TooManyInputs <==> n > 1)
                &&& (e is EmptyWitnessStack <==> (n == 1 && wn == 0))
                &&& (e is NotThreeWitnesses <==> (n == 1 && wn != 0 && wn != 3))
                &&& (e is NoMatchingSignature <==> (n == 1 && wn == 3
                    && !witness_sig_matches(
                        candidate.input@[0].witness@[0]@, ak@, self.digest@,
                    )
                    && !witness_sig_matches(
                        candidate.input@[0].witness@[1]@, ak@, self.digest@,
                    )))
            }),
            r is Ok <==> (candidate.input@.len() == 1 && candidate.input@[0].witness@.len() == 3
                && (witness_sig_matches(candidate.input@[0].witness@[0]@, ak@, self.digest@)
                    || witness_sig_matches(candidate.input@[0].witness@[1]@, ak@, self.digest@))),
    {
        if candidate.input.len() == 0 {
            return Err(ExtractError::NoInputs);
        }
        if candidate.input.len() > 1 {
            return Err(ExtractError::TooManyInputs);
        }
        let wn = candidate.input[0].witness.len();
        if wn == 0 {
            return Err(ExtractError::EmptyWitnessStack);
        }
        if wn != 3 {
            return Err(ExtractError::NotThreeWitnesses);
        }
        match self.try_witness_sig(&candidate.input[0].witness[0], ak) {
            Some(s) => Ok(s),
            None => match self.try_witness_sig(&candidate.input[0].witness[1], ak) {
                Some(s) => Ok(s),
                None => Err(ExtractError::NoMatchingSignature),
            },
        }
    }

    /// Tries one witness element against `ak` on the refund digest.
    fn try_witness_sig(&self, w: &Vec<u8>, ak: &Vec<u8>) -> (r: Option<Vec<u8>>)
        requires
            self.wf(),
        ensures
            r is Some <==> witness_sig_matches(w@, ak@, self.digest@),
            r matches Some(s) ==> (der_parse_of(w@.drop_last()) == Some(s@) && sig_ok(s@)
                && verify_ok(ak@, self.digest@, s@)),
    {
        if w.len() == 0 {
            return None;
        }
        let der = copy_prefix(w, w.len() - 1);
        assert(der@ =~= w@.drop_last());
        let s = match crate::crypto::sig_from_der(&der) {
            Some(s) => s,
            None => {
                return None;
            },
        };
        match crate::crypto::verify_sig(ak, &self.digest, &s) {
            Some(true) => Some(s),
            _ => None,
        }
    }

    /// Alice's recovery step: pulls her decrypted signature out of Bob's
    /// observed refund spend and recovers his Monero key half from it. It
    /// succeeds exactly when a witness signature verifies against `ak` on
    /// the refund digest and that signature is the decryption of the
    /// encrypted signature under the key of the statement point; the
    /// returned scalar is that key, and decrypting the encrypted signature
    /// with it yields exactly the signature seen on chain.
    pub fn recover_key_half(
        &self,
        candidate: &Transaction,
        ak: &Vec<u8>,
        statement: &Vec<u8>,
        encsig: &Vec<u8>,
    ) -> (r: Result<Vec<u8>, ExtractError>)
        requires
            self.wf(),
        ensures
            r matches Ok(y) ==> (scalar_ok(y@) && point_of(y@) == statement@
                && decrypt_of(encsig@, y@) == extracted_witness_sig(*candidate, ak@, self.digest@)
                && verify_ok(ak@, self.digest@, decrypt_of(encsig@, y@))),
            r is Ok <==> (candidate.input@.len() == 1 && candidate.input@[0].witness@.len() == 3
                && (witness_sig_matches(candidate.input@[0].witness@[0]@, ak@, self.digest@)
                    || witness_sig_matches(candidate.input@[0].witness@[1]@, ak@, self.digest@))
                && recoverable(
                    extracted_witness_sig(*candidate, ak@, self.digest@), statement@, encsig@,
                )),
            r matches Err(e) ==> ({
                let n = candidate.input@.len();
                let wn = if n == 1 { candidate.input@[0].witness@.len() } else { 0 };
                let m0 = n == 1 && wn == 3 && witness_sig_matches(
                    candidate.input@[0].witness@[0]@, ak@, self.digest@,
                );
                let m1 = n == 1 && wn == 3 && witness_sig_matches(
                    candidate.input@[0].witness@[1]@, ak@, self.digest@,
                );
                &&& (e is NoInputs <==> n == 0)
                &&& (e is TooManyInputs <==> n > 1)
                &&& (e is EmptyWitnessStack <==> (n == 1 && wn == 0))
                &&& (e is NotThreeWitnesses <==> (n == 1 && wn != 0 && wn != 3))
                &&& (e is NoMatchingSignature <==> ((n == 1 && wn == 3 && !m0 && !m1)
                    || ((m0 || m1) && !recoverable(
                        extracted_witness_sig(*candidate, ak@, self.digest@), statement@, encsig@,
                    ))))
            }),
    {
        let s = match self.extract_signature_by_key(candidate, ak) {
            Ok(s) => s,
            Err(e) => {
                return Err(e);
            },
        };
        assert(s@ == extracted_witness_sig(*candidate, ak@, self.digest@));
        match crate::crypto::recover(statement, &s, encsig) {
            Some(y) => {
                assert(recoverable(s@, statement@, encsig@)) by {
                    assert(scalar_ok(y@) && point_of(y@) == statement@ && s@ == decrypt_of(
                        encsig@, y@,
                    ));
                }
                Ok(y)
            },
            None => {
                assert(!recoverable(s@, statement@, encsig@));
                Err(ExtractError::NoMatchingSignature)
            },
        }
    }

    /// The id of the refund transaction.
    pub fn txid(&self) -> (r: Vec<u8>)
        requires
            self.wf(),
        ensures
            r@ == txid_of(
                self.inner.version, self.inner.lock_time,
                self.inner.input@[0].previous_output.txid@,
                self.inner.input@[0].previous_output.vout, self.inner.input@[0].sequence,
                self.inner.output@[0].value, self.inner.output@[0].script_pubkey@,
            ),
            r@.len() == 32,
    {
        txid_1in_1out(
            self.inner.version,
            self.inner.lock_time,
            &self.inner.input[0].previous_output.txid,
            self.inner.input[0].previous_output.vout,
            self.inner.input[0].sequence,
            self.inner.output[0].value,
            &self.inner.output[0].script_pubkey,
        ).unwrap()
    }

    /// The script watched to see the refund output confirmed or spent.
    pub fn script(&self) -> (r: Vec<u8>)
        ensures
            r@ == self.watch_script@,
    {
        copy_bytes(&self.watch_script)
    }
}

} // verus!
