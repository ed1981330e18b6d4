//! The script of the shared 2-of-2 output.
//!
//! The two parties' public keys guard the output through a witness script
//! that demands a signature from each: `<K1> CHECKSIGVERIFY <K2> CHECKSIG`.
//! Both parties must derive the same script, so the key order is fixed: the
//! lexicographically larger key stands first. Script execution takes its
//! signatures from the top of the stack down, so the first (larger) key is
//! checked against the last-pushed witness element — which is why the
//! completions place the smaller key's signature first on the witness, in
//! plain lexicographic order. The output itself is a version-0
//! pay-to-witness-script-hash output, whose script pubkey commits to the
//! SHA-256 of the witness script.

use vstd::prelude::*;

use crate::bytes::{append_bytes, lex_le, lex_le_exec};
use crate::crypto::{sha256, sha256_of};

verus! {

/// Opcode that pushes the 33 bytes of a compressed public key.
pub const OP_PUSH_33: u8 = 0x21;

/// OP_CHECKSIGVERIFY.
pub const OP_CHECKSIGVERIFY: u8 = 0xad;

/// OP_CHECKSIG.
pub const OP_CHECKSIG: u8 = 0xac;

/// The witness script demanding a signature under `k1` and one under `k2`.
pub open spec fn witness_script_of(k1: Seq<u8>, k2: Seq<u8>) -> Seq<u8> {
    seq![OP_PUSH_33] + k1 + seq![OP_CHECKSIGVERIFY, OP_PUSH_33] + k2 + seq![OP_CHECKSIG]
}

/// The witness script of the shared output of parties with keys `a` and `b`,
/// the lexicographically larger key standing first: it is satisfied by a
/// witness holding the smaller key's signature below the larger key's.
pub open spec fn shared_script_of(a: Seq<u8>, b: Seq<u8>) -> Seq<u8> {
    if lex_le(a, b) {
        witness_script_of(b, a)
    } else {
        witness_script_of(a, b)
    }
}

/// The script pubkey of the shared output: a version-0 witness program
/// carrying the SHA-256 of the shared witness script.
pub open spec fn shared_spk_of(a: Seq<u8>, b: Seq<u8>) -> Seq<u8> {
    seq![0x00u8, 0x20u8] + sha256_of(shared_script_of(a, b))
}

/// Builds the shared witness script for keys `a` and `b`.
pub fn shared_script(a: &Vec<u8>, b: &Vec<u8>) -> (r: Vec<u8>)
    ensures
        r@ == shared_script_of(a@, b@),
{
    let (k1, k2) = if lex_le_exec(a, b) { (b, a) } else { (a, b) };
    let mut r: Vec<u8> = Vec::new();
    r.push(OP_PUSH_33);
    append_bytes(&mut r, k1);
    r.push(OP_CHECKSIGVERIFY);
    r.push(OP_PUSH_33);
    append_bytes(&mut r, k2);
    r.push(OP_CHECKSIG);
    assert(r@ =~= witness_script_of(k1@, k2@));
    r
}

/// Builds the script pubkey of the shared output for keys `a` and `b`.
pub fn shared_spk(a: &Vec<u8>, b: &Vec<u8>) -> (r: Vec<u8>)
    ensures
        r@ == shared_spk_of(a@, b@),
{
    let ws = shared_script(a, b);
    let h = sha256(&ws);
    let mut r: Vec<u8> = Vec::new();
    r.push(0x00);
    r.push(0x20);
    append_bytes(&mut r, &h);
    assert(r@ =~= shared_spk_of(a@, b@));
    r
}

} // verus!
