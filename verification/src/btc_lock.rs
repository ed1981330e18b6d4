//! The observed Bitcoin lock transaction.
//!
//! The lock transaction funds the shared 2-of-2 output. The swap only ever
//! reads three things from it: its id, which later transactions spend; which
//! of its outputs is the shared one; and that output's amount. This type
//! keeps exactly those, as plain values handed in by the wallet that built
//! and broadcast the transaction.

use vstd::prelude::*;

use crate::bytes::bytes_eq;
use crate::script::{shared_spk, shared_spk_of};
use crate::transaction::TxOut;

verus! {

/// The swap's view of the confirmed lock transaction.
#[derive(Debug)]
pub struct BtcLock {
    /// 32-byte id of the lock transaction.
    pub txid: Vec<u8>,
    /// Its outputs, in transaction order.
    pub output: Vec<TxOut>,
    /// Alice's public key on secp256k1, compressed.
    pub pk_a: Vec<u8>,
    /// Bob's public key on secp256k1, compressed.
    pub pk_b: Vec<u8>,
}

impl BtcLock {
    /// The script pubkey of the shared output both parties derive.
    pub open spec fn shared_spk_spec(self) -> Seq<u8> {
        shared_spk_of(self.pk_a@, self.pk_b@)
    }

    /// A lock transaction the swap can build on: a plausible id and exactly
    /// one shared output.
    pub open spec fn wf(self) -> bool {
        &&& self.txid@.len() == 32
        &&& exists|i: int|
            0 <= i < self.output@.len()
                && #[trigger] self.output@[i].script_pubkey@ == self.shared_spk_spec()
    }

    /// The index of the first output paying the shared script pubkey.
    pub fn lock_output_vout(&self) -> (r: Option<usize>)
        ensures
            r matches Some(i) ==> (i < self.output@.len()
                && self.output@[i as int].script_pubkey@ == self.shared_spk_spec()
                && (forall|j: int|
                    0 <= j < i ==> self.output@[j].script_pubkey@ != self.shared_spk_spec())),
            r is None ==> (forall|j: int|
                0 <= j < self.output@.len()
                    ==> self.output@[j].script_pubkey@ != self.shared_spk_spec()),
    {
        let spk = shared_spk(&self.pk_a, &self.pk_b);
        let mut i: usize = 0;
        while i < self.output.len()
            invariant
                i <= self.output@.len(),
                spk@ == self.shared_spk_spec(),
                forall|j: int| 0 <= j < i ==> self.output@[j].script_pubkey@ != self.shared_spk_spec(),
            decreases self.output@.len() - i,
        {
            if bytes_eq(&self.output[i].script_pubkey, &spk) {
                return Some(i);
            }
            i = i + 1;
        }
        None
    }

    /// The amount, in satoshi, held by the shared output.
    pub fn lock_amount(&self) -> (r: Option<u64>)
        ensures
            r matches Some(v) ==> (exists|i: int|
                0 <= i < self.output@.len()
                    && #[trigger] self.output@[i].script_pubkey@ == self.shared_spk_spec()
                    && self.output@[i].value == v),
            r is Some <==> !(forall|j: int|
                0 <= j < self.output@.len()
                    ==> self.output@[j].script_pubkey@ != self.shared_spk_spec()),
    {
        match self.lock_output_vout() {
            Some(i) => Some(self.output[i].value),
            None => None,
        }
    }
}

} // verus!
