//! The redeem transaction: the happy-path spend of the shared output.
//!
//! `BtcRedeem` is built from the observed lock transaction and Alice's
//! redeem address. It spends the shared 2-of-2 output to that address, the
//! locked amount less the fixed fee. Completion couples the spend to the
//! adaptor protocol: Alice checks Bob's encrypted signature against the
//! secp256k1 image of her Monero key half, decrypts it with that half,
//! signs herself, and fills the witness; Bob, watching the chain, pulls the decrypted
//! signature back out of the confirmed spend by his key.

use vstd::prelude::*;

use crate::btc_lock::BtcLock;
use crate::bytes::{copy_bytes, copy_prefix, lex_le, lex_le_exec};
use crate::crypto::{
    decrypt_of, der_of, der_parse_of, encsig_ok, encsign_of, encverify_ok, point_of, point_ok,
    recoverable, scalar_ok, sig_ok, sign_of, verify_ok,
};
use crate::script::{shared_script, shared_script_of};
use crate::transaction::{sighash_of, sighash_1in_1out, txid_of, txid_1in_1out, OutPoint, Transaction, TxIn, TxOut};
use crate::{DUST_AMOUNT, TX_FEE};

verus! {

/// Why a transaction could not be built.
#[derive(Clone, Copy, Debug, PartialEq, Eq, Structural)]
pub enum BuildError {
    /// The amount left after the fee would be dust.
    Underflow,
    /// The lock transaction carries no shared output, or its id is malformed.
    BadDescriptor,
}

/// Why completion of the redeem transaction failed.
#[derive(Clone, Copy, Debug, PartialEq, Eq, Structural)]
pub enum CompleteError {
    /// The input already carries witness data.
    AlreadySigned,
    /// One of the caller's own secret scalars is invalid.
    InvalidKey,
    /// The counterparty's encrypted signature does not verify.
    BadAdaptor,
    /// The counterparty's plain signature does not verify.
    BadSignature,
}

/// Why no signature could be extracted from an observed spend.
#[derive(Clone, Copy, Debug, PartialEq, Eq, Structural)]
pub enum ExtractError {
    /// The candidate transaction has no inputs.
    NoInputs,
    /// The candidate transaction has more than one input.
    TooManyInputs,
    /// The input carries no witness data.
    EmptyWitnessStack,
    /// The witness stack is not the two-signatures-and-script shape.
    NotThreeWitnesses,
    /// Neither witness signature verifies against the given key.
    NoMatchingSignature,
}

/// The sighash-type byte appended to each DER signature on the witness.
pub const SIGHASH_ALL_BYTE: u8 = 0x01;

/// A witness element: the DER encoding of a signature plus the sighash byte.
pub open spec fn wit_elem_of(s: Seq<u8>) -> Seq<u8> {
    der_of(s) + seq![SIGHASH_ALL_BYTE]
}

/// Whether a witness element carries a signature that verifies against `bk`
/// on `digest`: all but its last byte parse as DER and the parsed signature
/// verifies.
pub open spec fn witness_sig_matches(w: Seq<u8>, bk: Seq<u8>, digest: Seq<u8>) -> bool {
    &&& point_ok(bk)
    &&& w.len() > 0
    &&& match der_parse_of(w.drop_last()) {
        Some(s) => sig_ok(s) && verify_ok(bk, digest, s),
        None => false,
    }
}

/// The signature that extraction returns for a spend whose witness carries
/// one: the parse of the first of the two signature elements that verifies
/// against `bk` on `digest`.
pub open spec fn extracted_witness_sig(candidate: Transaction, bk: Seq<u8>, digest: Seq<u8>) -> Seq<u8> {
    let w0 = candidate.input@[0].witness@[0]@;
    let w1 = candidate.input@[0].witness@[1]@;
    let w = if witness_sig_matches(w0, bk, digest) {
        w0
    } else {
        w1
    };
    match der_parse_of(w.drop_last()) {
        Some(s) => s,
        None => Seq::empty(),
    }
}

/// The witness stack of the completed redeem transaction: both signatures,
/// the one under the lexicographically smaller public key first, then the
/// witness script. This satisfies the shared script, which names the larger
/// key first and so checks it against the last-pushed signature element.
pub open spec fn completed_witness(
    a: Seq<u8>,
    bk: Seq<u8>,
    digest: Seq<u8>,
    encsig: Seq<u8>,
    s_a: Seq<u8>,
    script: Seq<u8>,
) -> Seq<Seq<u8>> {
    let wa = wit_elem_of(sign_of(a, digest));
    let wb = wit_elem_of(decrypt_of(encsig, s_a));
    if lex_le(point_of(a), bk) {
        seq![wa, wb, script]
    } else {
        seq![wb, wa, script]
    }
}

/// The redeem transaction, before its witness is filled in.
#[derive(Debug, PartialEq, Eq)]
pub struct BtcRedeem {
    /// The unsigned spend of the shared output.
    pub inner: Transaction,
    /// The BIP-143 digest its signatures commit to.
    pub digest: Vec<u8>,
    /// The witness script of the shared output, also its script code.
    pub lock_script: Vec<u8>,
    /// The script pubkey of the redeem output, watched for confirmation.
    pub watch_script: Vec<u8>,
    /// The amount held by the shared output being spent.
    pub lock_amount: u64,
}

impl BtcRedeem {
    /// Shape every redeem transaction built by `new` has.
    pub open spec fn wf(self) -> bool {
        &&& self.inner.version == 2
        &&& self.inner.lock_time == 0
        &&& self.inner.input@.len() == 1
        &&& self.inner.output@.len() == 1
        &&& self.inner.input@[0].previous_output.txid@.len() == 32
        &&& self.lock_amount > TX_FEE + DUST_AMOUNT
        &&& self.inner.output@[0].value == self.lock_amount - TX_FEE
        &&& self.inner.output@[0].script_pubkey@ == self.watch_script@
        &&& self.digest@.len() == 32
    }

    /// Whether completion with these arguments succeeds: the input is not
    /// yet signed, the scalars and key parse, and the encrypted signature
    /// verifies against `bk` with the statement point of `s_a`.
    pub open spec fn can_complete(self, a: Seq<u8>, s_a: Seq<u8>, bk: Seq<u8>, encsig: Seq<u8>) -> bool {
        &&& self.inner.input@[0].witness@.len() == 0
        &&& scalar_ok(a)
        &&& scalar_ok(s_a)
        &&& point_ok(bk)
        &&& encsig_ok(encsig)
        &&& encverify_ok(bk, point_of(s_a), self.digest@, encsig)
    }

    /// Builds the redeem transaction spending the shared output of `tx_lock`
    /// to `redeem_address` (given as its script pubkey), for the locked
    /// amount less the fee, and computes its signature digest.
    pub fn new(tx_lock: &BtcLock, redeem_address: &Vec<u8>) -> (r: Result<BtcRedeem, BuildError>)
        requires
            tx_lock.output@.len() <= 0xFFFF_FFFF,
        ensures
            r matches Ok(t) ==> ({
                let i = t.inner.input@[0].previous_output.vout as int;
                &&& t.wf()
                &&& t.inner.input@[0].witness@.len() == 0
                &&& t.watch_script@ == redeem_address@
                &&& t.lock_script@ == shared_script_of(tx_lock.pk_a@, tx_lock.pk_b@)
                &&& t.inner.input@[0].previous_output.txid@ == tx_lock.txid@
                &&& t.inner.input@[0].sequence == 0xFFFF_FFFFu32
                &&& 0 <= i < tx_lock.output@.len()
                &&& tx_lock.output@[i].script_pubkey@ == tx_lock.shared_spk_spec()
                &&& (forall|j: int|
                    0 <= j < i ==> tx_lock.output@[j].script_pubkey@ != tx_lock.shared_spk_spec())
                &&& t.lock_amount == tx_lock.output@[i].value
                &&& t.digest@ == sighash_of(
                    2, 0, tx_lock.txid@, t.inner.input@[0].previous_output.vout, 0xFFFF_FFFF,
                    (t.lock_amount - TX_FEE) as u64, redeem_address@, t.lock_script@,
                    t.lock_amount,
                )
            }),
            r matches Err(e) ==> ({
                let missing = tx_lock.txid@.len() != 32 || (forall|j: int|
                    0 <= j < tx_lock.output@.len()
                        ==> tx_lock.output@[j].script_pubkey@ != tx_lock.shared_spk_spec());
                &&& (e is BadDescriptor <==> missing)
                &&& (e is Underflow ==> !missing)
            }),
            r is Err <==> (tx_lock.txid@.len() != 32
                || (forall|j: int|
                    0 <= j < tx_lock.output@.len()
                        ==> tx_lock.output@[j].script_pubkey@ != tx_lock.shared_spk_spec())
                || (exists|i: int|
                    0 <= i < tx_lock.output@.len()
                        && #[trigger] tx_lock.output@[i].script_pubkey@
                            == tx_lock.shared_spk_spec()
                        && (forall|j: int|
                            0 <= j < i
                                ==> tx_lock.output@[j].script_pubkey@
                                    != tx_lock.shared_spk_spec())
                        && tx_lock.output@[i].value <= TX_FEE + DUST_AMOUNT)),
    {
        if tx_lock.txid.len() != 32 {
            return Err(BuildError::BadDescriptor);
        }
        let vout = match tx_lock.lock_output_vout() {
            Some(i) => i,
            None => {
                return Err(BuildError::BadDescriptor);
            },
        };
        let amount = tx_lock.output[vout].value;
        if amount <= TX_FEE + DUST_AMOUNT {
            return Err(BuildError::Underflow);
        }
        let out_value = amount - TX_FEE;
        let ws = shared_script(&tx_lock.pk_a, &tx_lock.pk_b);
        let digest = sighash_1in_1out(
            2, 0, &tx_lock.txid, vout as u32, 0xFFFF_FFFF, out_value, redeem_address, &ws, amount,
        ).unwrap();
        let mut input: Vec<TxIn> = Vec::new();
        input.push(TxIn {
            previous_output: OutPoint { txid: copy_bytes(&tx_lock.txid), vout: vout as u32 },
            sequence: 0xFFFF_FFFF,
            witness: Vec::new(),
        });
        let mut output: Vec<TxOut> = Vec::new();
        output.push(TxOut { value: out_value, script_pubkey: copy_bytes(redeem_address) });
        Ok(BtcRedeem {
            inner: Transaction { version: 2, lock_time: 0, input, output },
            digest,
            lock_script: ws,
            watch_script: copy_bytes(redeem_address),
            lock_amount: amount,
        })
    }

    /// The id of the redeem transaction.
    pub fn txid(&self) -> (r: Vec<u8>)
        requires
            self.wf(),
        ensures
            r@ == txid_of(
                self.inner.version, self.inner.lock_time,
                self.inner.input@[0].previous_output.txid@,
                self.inner.input@[0].previous_output.vout, self.inner.input@[0].sequence,
                self.inner.output@[0].value, self.inner.output@[0].script_pubkey@,
            ),
            r@.len() == 32,
    {
        txid_1in_1out(
            self.inner.version,
            self.inner.lock_time,
            &self.inner.input[0].previous_output.txid,
            self.inner.input[0].previous_output.vout,
            self.inner.input[0].sequence,
            self.inner.output[0].value,
            &self.inner.output[0].script_pubkey,
        ).unwrap()
    }

    /// The redeem transaction's only output, as an outpoint for a further
    /// spend to reference.
    pub fn as_outpoint(&self) -> (r: OutPoint)
        requires
            self.wf(),
        ensures
            r.txid@ == txid_of(
                self.inner.version, self.inner.lock_time,
                self.inner.input@[0].previous_output.txid@,
                self.inner.input@[0].previous_output.vout, self.inner.input@[0].sequence,
                self.inner.output@[0].value, self.inner.output@[0].script_pubkey@,
            ),
            r.txid@.len() == 32,
            r.vout == 0,
    {
        OutPoint { txid: self.txid(), vout: 0 }
    }

    /// The digest the redeem signatures commit to.
    pub fn digest(&self) -> (r: Vec<u8>)
        ensures
            r@ == self.digest@,
    {
        copy_bytes(&self.digest)
    }

    /// Bob's encrypted signature on the redeem digest, with Alice's
    /// secp256k1 image of her Monero key half as the statement point: the
    /// signature Alice can decrypt, and the decryption discloses that half.
    pub fn encsig(&self, b: &Vec<u8>, statement: &Vec<u8>) -> (r: Option<Vec<u8>>)
        requires
            self.wf(),
        ensures
            r is Some <==> (scalar_ok(b@) && point_ok(statement@)),
            r matches Some(es) ==> (es@ == encsign_of(b@, statement@, self.digest@)
                && encsig_ok(es@)
                && encverify_ok(point_of(b@), statement@, self.digest@, es@)),
    {
        crate::crypto::encsign(b, statement, &self.digest)
    }

    /// Completes the redeem transaction: verifies the counterparty's
    /// encrypted signature, decrypts it with `s_a`, signs with `a`, and
    /// fills the witness stack in lexicographic-by-public-key order.
    pub fn complete(&self, a: &Vec<u8>, s_a: &Vec<u8>, bk: &Vec<u8>, encsig: &Vec<u8>) -> (r:
        Result<Transaction, CompleteError>)
        requires
            self.wf(),
        ensures
            r is Ok <==> self.can_complete(a@, s_a@, bk@, encsig@),
            r matches Ok(tx) ==> ({
                let w = completed_witness(
                    a@, bk@, self.digest@, encsig@, s_a@, self.lock_script@,
                );
                &&& tx.version == self.inner.version
                &&& tx.lock_time == self.inner.lock_time
                &&& tx.input@.len() == 1
                &&& tx.input@[0].previous_output.txid@
                    == self.inner.input@[0].previous_output.txid@
                &&& tx.input@[0].previous_output.vout == self.inner.input@[0].previous_output.vout
                &&& tx.input@[0].sequence == self.inner.input@[0].sequence
                &&& tx.input@[0].witness@.len() == 3
                &&& tx.input@[0].witness@[0]@ == w[0]
                &&& tx.input@[0].witness@[1]@ == w[1]
                &&& tx.input@[0].witness@[2]@ == self.lock_script@
                &&& tx.output@.len() == 1
                &&& tx.output@[0].value == self.inner.output@[0].value
                &&& tx.output@[0].script_pubkey@ == self.inner.output@[0].script_pubkey@
                &&& verify_ok(bk@, self.digest@, decrypt_of(encsig@, s_a@))
                &&& verify_ok(point_of(a@), self.digest@, sign_of(a@, self.digest@))
            }),
            r matches Err(e) ==> ({
                let unsigned = self.inner.input@[0].witness@.len() == 0;
                &&& (e is AlreadySigned <==> !unsigned)
                &&& (e is InvalidKey <==> (unsigned && !(scalar_ok(a@) && scalar_ok(s_a@))))
                &&& (e is BadAdaptor <==> (unsigned && scalar_ok(a@) && scalar_ok(s_a@)
                    && (!point_ok(bk@) || !encsig_ok(encsig@)
                        || !encverify_ok(bk@, point_of(s_a@), self.digest@, encsig@))))
            }),
    {
        if self.inner.input[0].witness.len() > 0 {
            return Err(CompleteError::AlreadySigned);
        }
        let apk = match crate::crypto::public_key_for(a) {
            Some(p) => p,
            None => {
                return Err(CompleteError::InvalidKey);
            },
        };
        let statement = match crate::crypto::public_key_for(s_a) {
            Some(p) => p,
            None => {
                return Err(CompleteError::InvalidKey);
            },
        };
        let ok = match crate::crypto::verify_encsig(bk, &statement, &self.digest, encsig) {
            Some(v) => v,
            None => {
                return Err(CompleteError::BadAdaptor);
            },
        };
        if !ok {
            return Err(CompleteError::BadAdaptor);
        }
        let sig_a = crate::crypto::sign(a, &self.digest).unwrap();
        let sig_b = crate::crypto::decrypt_signature(s_a, encsig).unwrap();
        let mut wa = crate::crypto::sig_to_der(&sig_a).unwrap();
        wa.push(SIGHASH_ALL_BYTE);
        let mut wb = crate::crypto::sig_to_der(&sig_b).unwrap();
        wb.push(SIGHASH_ALL_BYTE);
        let mut witness: Vec<Vec<u8>> = Vec::new();
        if lex_le_exec(&apk, bk) {
            witness.push(wa);
            witness.push(wb);
        } else {
            witness.push(wb);
            witness.push(wa);
        }
        witness.push(copy_bytes(&self.lock_script));
        let mut input: Vec<TxIn> = Vec::new();
        input.push(TxIn {
            previous_output: OutPoint {
                txid: copy_bytes(&self.inner.input[0].previous_output.txid),
                vout: self.inner.input[0].previous_output.vout,
            },
            sequence: self.inner.input[0].sequence,
            witness,
        });
        let mut output: Vec<TxOut> = Vec::new();
        output.push(TxOut {
            value: self.inner.output[0].value,
            script_pubkey: copy_bytes(&self.inner.output[0].script_pubkey),
        });
        Ok(Transaction {
            version: self.inner.version,
            lock_time: self.inner.lock_time,
            input,
            output,
        })
    }

    /// Pulls out of an observed spend the witness signature that verifies
    /// against `bk` on the redeem digest.
    pub fn extract_signature_by_key(&self, candidate: &Transaction, bk: &Vec<u8>) -> (r: Result<
        Vec<u8>,
        ExtractError,
    >)
        requires
            self.wf(),
        ensures
            r matches Ok(s) ==> ({
                let w0 = candidate.input@[0].witness@[0]@;
                let w1 = candidate.input@[0].witness@[1]@;
                &&& candidate.input@.len() == 1
                &&& candidate.input@[0].witness@.len() == 3
                &&& sig_ok(s@) && verify_ok(bk@, self.digest@, s@)
                &&& (witness_sig_matches(w0, bk@, self.digest@) ==> der_parse_of(w0.drop_last())
                    == Some(s@))
                &&& (!witness_sig_matches(w0, bk@, self.digest@) ==> (witness_sig_matches(
                    w1, bk@, self.digest@,
                ) && der_parse_of(w1.drop_last()) == Some(s@)))
            }),
            r matches Err(e) ==> ({
                let n = candidate.input@.len();
                let wn = if n == 1 { candidate.input@[0].witness@.len() } else { 0 };
                &&& (e is NoInputs <==> n == 0)
                &&& (e is TooManyInputs <==> n > 1)
                &&& (e is EmptyWitnessStack <==> (n == 1 && wn == 0))
                &&& (e is NotThreeWitnesses <==> (n == 1 && wn != 0 && wn != 3))
                &&& (e is NoMatchingSignature <==> (n == 1 && wn == 3
                    && !witness_sig_matches(
                        candidate.input@[0].witness@[0]@, bk@, self.digest@,
                    )
                    && !witness_sig_matches(
                        candidate.input@[0].witness@[1]@, bk@, self.digest@,
                    )))
            }),
            r is Ok <==> (candidate.input@.len() == 1 && candidate.input@[0].witness@.len() == 3
                && (witness_sig_matches(candidate.input@[0].witness@[0]@, bk@, self.digest@)
                    || witness_sig_matches(candidate.input@[0].witness@[1]@, bk@, self.digest@))),
    {
        if candidate.input.len() == 0 {
            return Err(ExtractError::NoInputs);
        }
        if candidate.input.len() > 1 {
            return Err(ExtractError::TooManyInputs);
        }
        let wn = candidate.input[0].witness.len();
        if wn == 0 {
            return Err(ExtractError::EmptyWitnessStack);
        }
        if wn != 3 {
            return Err(ExtractError::NotThreeWitnesses);
        }
        match self.try_witness_sig(&candidate.input[0].witness[0], bk) {
            Some(s) => Ok(s),
            None => match self.try_witness_sig(&candidate.input[0].witness[1], bk) {
                Some(s) => Ok(s),
                None => Err(ExtractError::NoMatchingSignature),
            },
        }
    }

    /// Tries one witness element: strips the sighash byte, parses the DER
    /// signature, and checks it against `bk` on the redeem digest.
    fn try_witness_sig(&self, w: &Vec<u8>, bk: &Vec<u8>) -> (r: Option<Vec<u8>>)
        requires
            self.wf(),
        ensures
            r is Some <==> witness_sig_matches(w@, bk@, self.digest@),
            r matches Some(s) ==> (der_parse_of(w@.drop_last()) == Some(s@) && sig_ok(s@)
                && verify_ok(bk@, self.digest@, s@)),
    {
        if w.len() == 0 {
            return None;
        }
        let der = copy_prefix(w, w.len() - 1);
        assert(der@ =~= w@.drop_last());
        let s = match crate::crypto::sig_from_der(&der) {
            Some(s) => s,
            None => {
                return None;
            },
        };
        match crate::crypto::verify_sig(bk, &self.digest, &s) {
            Some(true) => Some(s),
            _ => None,
        }
    }

    /// Bob's recovery step: pulls his decrypted signature out of Alice's
    /// observed redeem spend and recovers her Monero key half from it — the
    /// disclosure the adaptor linkage exists for. It succeeds exactly when
    /// a witness signature verifies against `bk` on the redeem digest and
    /// that signature is the decryption of the encrypted signature under
    /// the key of the statement point; the returned scalar is that key,
    /// and decrypting the encrypted signature with it yields exactly the
    /// signature seen on chain.
    pub fn recover_key_half(
        &self,
        candidate: &Transaction,
        bk: &Vec<u8>,
        statement: &Vec<u8>,
        encsig: &Vec<u8>,
    ) -> (r: Result<Vec<u8>, ExtractError>)
        requires
            self.wf(),
        ensures
            r matches Ok(y) ==> (scalar_ok(y@) && point_of(y@) == statement@
                && decrypt_of(encsig@, y@) == extracted_witness_sig(*candidate, bk@, self.digest@)
                && verify_ok(bk@, self.digest@, decrypt_of(encsig@, y@))),
            r is Ok <==> (candidate.input@.len() == 1 && candidate.input@[0].witness@.len() == 3
                && (witness_sig_matches(candidate.input@[0].witness@[0]@, bk@, self.digest@)
                    || witness_sig_matches(candidate.input@[0].witness@[1]@, bk@, self.digest@))
                && recoverable(
                    extracted_witness_sig(*candidate, bk@, self.digest@), statement@, encsig@,
                )),
            r matches Err(e) ==> ({
                let n = candidate.input@.len();
                let wn = if n == 1 { candidate.input@[0].witness@.len() } else { 0 };
                let m0 = n == 1 && wn == 3 && witness_sig_matches(
                    candidate.input@[0].witness@[0]@, bk@, self.digest@,
                );
                let m1 = n == 1 && wn == 3 && witness_sig_matches(
                    candidate.input@[0].witness@[1]@, bk@, self.digest@,
                );
                &&& (e is NoInputs <==> n == 0)
                &&& (e is TooManyInputs <==> n > 1)
                &&& (e is EmptyWitnessStack <==> (n == 1 && wn == 0))
                &&& (e is NotThreeWitnesses <==> (n == 1 && wn != 0 && wn != 3))
                &&& (e is NoMatchingSignature <==> ((n == 1 && wn == 3 && !m0 && !m1)
                    || ((m0 || m1) && !recoverable(
                        extracted_witness_sig(*candidate, bk@, self.digest@), statement@, encsig@,
                    ))))
            }),
    {
        let s = match self.extract_signature_by_key(candidate, bk) {
            Ok(s) => s,
            Err(e) => {
                return Err(e);
            },
        };
        assert(s@ == extracted_witness_sig(*candidate, bk@, self.digest@));
        match crate::crypto::recover(statement, &s, encsig) {
            Some(y) => {
                assert(recoverable(s@, statement@, encsig@)) by {
                    assert(scalar_ok(y@) && point_of(y@) == statement@ && s@ == decrypt_of(
                        encsig@, y@,
                    ));
                }
                Ok(y)
            },
            None => {
                assert(!recoverable(s@, statement@, encsig@));
                Err(ExtractError::NoMatchingSignature)
            },
        }
    }

    /// A further transaction spending the redeem output to `spend_address`
    /// (given as its script pubkey), the amount less the fee, with the given
    /// sequence number or the final one.
    pub fn build_take_transaction(&self, spend_address: &Vec<u8>, sequence: Option<u32>) -> (r:
        Result<Transaction, BuildError>)
        requires
            self.wf(),
        ensures
            r is Ok <==> self.inner.output@[0].value > TX_FEE + DUST_AMOUNT,
            r matches Ok(tx) ==> ({
                &&& tx.version == 2
                &&& tx.lock_time == 0
                &&& tx.input@.len() == 1
                &&& tx.input@[0].previous_output.txid@ == txid_of(
                    self.inner.version, self.inner.lock_time,
                    self.inner.input@[0].previous_output.txid@,
                    self.inner.input@[0].previous_output.vout, self.inner.input@[0].sequence,
                    self.inner.output@[0].value, self.inner.output@[0].script_pubkey@,
                )
                &&& tx.input@[0].previous_output.vout == 0
                &&& tx.input@[0].sequence == (match sequence {
                    Some(s) => s,
                    None => 0xFFFF_FFFFu32,
                })
                &&& tx.input@[0].witness@.len() == 0
                &&& tx.output@.len() == 1
                &&& tx.output@[0].value == self.inner.output@[0].value - TX_FEE
                &&& tx.output@[0].script_pubkey@ == spend_address@
            }),
            r matches Err(e) ==> e is Underflow,
    {
        let value = self.inner.output[0].value;
        if value <= TX_FEE + DUST_AMOUNT {
            return Err(BuildError::Underflow);
        }
        let seq = match sequence {
            Some(s) => s,
            None => 0xFFFF_FFFF,
        };
        let mut input: Vec<TxIn> = Vec::new();
        input.push(TxIn {
            previous_output: self.as_outpoint(),
            sequence: seq,
            witness: Vec::new(),
        });
        let mut output: Vec<TxOut> = Vec::new();
        output.push(TxOut { value: value - TX_FEE, script_pubkey: copy_bytes(spend_address) });
        Ok(Transaction { version: 2, lock_time: 0, input, output })
    }

    /// The id under which the redeem transaction is watched.
    pub fn id(&self) -> (r: Vec<u8>)
        requires
            self.wf(),
        ensures
            r@ == txid_of(
                self.inner.version, self.inner.lock_time,
                self.inner.input@[0].previous_output.txid@,
                self.inner.input@[0].previous_output.vout, self.inner.input@[0].sequence,
                self.inner.output@[0].value, self.inner.output@[0].script_pubkey@,
            ),
    {
        self.txid()
    }

    /// The script watched to see the redeem output confirmed or spent.
    pub fn script(&self) -> (r: Vec<u8>)
        ensures
            r@ == self.watch_script@,
    {
        copy_bytes(&self.watch_script)
    }
}

} // verus!
