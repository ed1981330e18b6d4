//! A plain model of the Bitcoin transactions the swap builds and observes.
//!
//! The model keeps exactly what the protocol logic reads: identifiers,
//! indices, amounts, sequence numbers, script bytes and witness stacks.
//! The two digests that only the `bitcoin` crate can compute over this data
//! — the transaction id and the BIP-143 signature hash — are reached through
//! trusted wrappers that rebuild the one-input, one-output transaction the
//! swap spends with and hand back the digest bytes.

use vstd::prelude::*;

verus! {

/// A reference to one output of an earlier transaction.
#[derive(Debug, PartialEq, Eq)]
pub struct OutPoint {
    /// 32-byte id of the transaction holding the output.
    pub txid: Vec<u8>,
    /// Index of the output.
    pub vout: u32,
}

/// One input of a transaction.
#[derive(Debug, PartialEq, Eq)]
pub struct TxIn {
    /// The output being spent.
    pub previous_output: OutPoint,
    /// Relative-timelock sequence number.
    pub sequence: u32,
    /// The witness stack; empty until the input is signed.
    pub witness: Vec<Vec<u8>>,
}

/// One output of a transaction.
#[derive(Debug, PartialEq, Eq)]
pub struct TxOut {
    /// Amount in satoshi.
    pub value: u64,
    /// The script pubkey.
    pub script_pubkey: Vec<u8>,
}

/// A transaction.
#[derive(Debug, PartialEq, Eq)]
pub struct Transaction {
    /// Format version.
    pub version: u32,
    /// Absolute locktime.
    pub lock_time: u32,
    /// Inputs.
    pub input: Vec<TxIn>,
    /// Outputs.
    pub output: Vec<TxOut>,
}

/// The id of the one-input, one-output transaction with these fields,
/// as computed by `bitcoin::Transaction::txid`.
pub uninterp spec fn txid_of(
    version: u32,
    lock_time: u32,
    prev_txid: Seq<u8>,
    prev_vout: u32,
    sequence: u32,
    value: u64,
    spk: Seq<u8>,
) -> Seq<u8>;

/// The BIP-143 `SIGHASH_ALL` digest of the one-input, one-output transaction
/// with these fields, signed over `script_code` and the spent output's
/// `input_value`, as computed by `bitcoin::util::bip143::SigHashCache`.
pub uninterp spec fn sighash_of(
    version: u32,
    lock_time: u32,
    prev_txid: Seq<u8>,
    prev_vout: u32,
    sequence: u32,
    value: u64,
    spk: Seq<u8>,
    script_code: Seq<u8>,
    input_value: u64,
) -> Seq<u8>;

/// Relies on `bitcoin::Transaction::txid`: the double-SHA-256 of the
/// transaction's serialization, a pure function of the fields below (the
/// witness does not enter it).
#[verifier::external_body]
pub fn txid_1in_1out(
    version: u32,
    lock_time: u32,
    prev_txid: &Vec<u8>,
    prev_vout: u32,
    sequence: u32,
    value: u64,
    spk: &Vec<u8>,
) -> (r: Option<Vec<u8>>)
    ensures
        r is Some <==> prev_txid@.len() == 32,
        r matches Some(t) ==> (
            t@ == txid_of(version, lock_time, prev_txid@, prev_vout, sequence, value, spk@)
            && t@.len() == 32
        ),
{
    let prev = <bitcoin::Txid as bitcoin::hashes::Hash>::from_slice(prev_txid.as_slice()).ok()?;
    let input = vec![bitcoin::TxIn {
        previous_output: bitcoin::OutPoint::new(prev, prev_vout),
        script_sig: bitcoin::Script::new(),
        sequence,
        witness: vec![],
    }];
    let output = vec![bitcoin::TxOut { value, script_pubkey: bitcoin::Script::from(spk.clone()) }];
    let tx = bitcoin::Transaction { version: version as i32, lock_time, input, output };
    Some(bitcoin::hashes::Hash::into_inner(tx.txid()).to_vec())
}

/// Relies on `bitcoin::util::bip143::SigHashCache::signature_hash`: the
/// segwit v0 `SIGHASH_ALL` digest, a pure function of the fields below.
#[verifier::external_body]
pub fn sighash_1in_1out(
    version: u32,
    lock_time: u32,
    prev_txid: &Vec<u8>,
    prev_vout: u32,
    sequence: u32,
    value: u64,
    spk: &Vec<u8>,
    script_code: &Vec<u8>,
    input_value: u64,
) -> (r: Option<Vec<u8>>)
    ensures
        r is Some <==> prev_txid@.len() == 32,
        r matches Some(d) ==> (
            d@ == sighash_of(
                version, lock_time, prev_txid@, prev_vout, sequence, value, spk@,
                script_code@, input_value,
            )
            && d@.len() == 32
        ),
{
    let prev = <bitcoin::Txid as bitcoin::hashes::Hash>::from_slice(prev_txid.as_slice()).ok()?;
    let input = vec![bitcoin::TxIn {
        previous_output: bitcoin::OutPoint::new(prev, prev_vout),
        script_sig: bitcoin::Script::new(),
        sequence,
        witness: vec![],
    }];
    let output = vec![bitcoin::TxOut { value, script_pubkey: bitcoin::Script::from(spk.clone()) }];
    let tx = bitcoin::Transaction { version: version as i32, lock_time, input, output };
    let code = bitcoin::Script::from(script_code.clone());
    let mut cache = bitcoin::util::bip143::SigHashCache::new(&tx);
    let d = cache.signature_hash(0, &code, input_value, bitcoin::SigHashType::All);
    Some(bitcoin::hashes::Hash::into_inner(d).to_vec())
}

} // verus!
