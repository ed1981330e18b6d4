//! The handshake's derivation of all four spends, and the receipt checks.

use swap::btc_lock::BtcLock;
use swap::btc_redeem::BuildError;
use swap::handshake::{derive_transactions, receive_encsig, receive_sig, CryptoError};
use swap::transaction::TxOut;

fn scalar(fill: u8) -> Vec<u8> {
    vec![fill; 32]
}

fn pk(fill: u8) -> Vec<u8> {
    swap::crypto::public_key_for(&scalar(fill)).unwrap()
}

fn spk(tag: u8) -> Vec<u8> {
    let mut spk = vec![0x00u8, 0x14];
    spk.extend_from_slice(&[tag; 20]);
    spk
}

fn lock(amount: u64) -> BtcLock {
    let pk_a = pk(0x01);
    let pk_b = pk(0x03);
    let shared = swap::script::shared_spk(&pk_a, &pk_b);
    BtcLock {
        txid: vec![0xaa; 32],
        output: vec![TxOut { value: amount, script_pubkey: shared }],
        pk_a,
        pk_b,
    }
}

#[test]
fn both_parties_derive_the_same_transactions() {
    let l = lock(1_000_000);
    let alice = derive_transactions(&l, &spk(0xaa), &spk(0xbb), &spk(0xcc), 72, 72).unwrap();
    let bob = derive_transactions(&l, &spk(0xaa), &spk(0xbb), &spk(0xcc), 72, 72).unwrap();
    assert_eq!(alice.redeem, bob.redeem);
    assert_eq!(alice.cancel, bob.cancel);
    assert_eq!(alice.refund, bob.refund);
    assert_eq!(alice.punish, bob.punish);

    // the chain of spends and the timelocks
    assert_eq!(alice.redeem.inner.input[0].previous_output.txid, vec![0xaa; 32]);
    assert_eq!(alice.cancel.inner.input[0].previous_output.txid, vec![0xaa; 32]);
    assert_eq!(alice.cancel.inner.input[0].sequence, 72);
    assert_eq!(alice.refund.inner.input[0].previous_output.txid, alice.cancel.txid());
    assert_eq!(alice.punish.inner.input[0].previous_output.txid, alice.cancel.txid());
    assert_eq!(alice.punish.inner.input[0].sequence, 72);

    // the amounts step down by one fee per hop
    assert_eq!(alice.redeem.inner.output[0].value, 990_000);
    assert_eq!(alice.cancel.inner.output[0].value, 990_000);
    assert_eq!(alice.refund.inner.output[0].value, 980_000);
    assert_eq!(alice.punish.inner.output[0].value, 980_000);
}

#[test]
fn derivation_needs_two_hops_of_fee() {
    // one fee above the single-hop floor is enough to redeem but not to
    // refund after a cancel
    assert_eq!(
        derive_transactions(&lock(20_546), &spk(0xaa), &spk(0xbb), &spk(0xcc), 72, 72),
        Err(BuildError::Underflow)
    );
    assert!(derive_transactions(&lock(20_547), &spk(0xaa), &spk(0xbb), &spk(0xcc), 72, 72).is_ok());
    let mut missing = lock(1_000_000);
    missing.output[0].script_pubkey = vec![0x51];
    assert_eq!(
        derive_transactions(&missing, &spk(0xaa), &spk(0xbb), &spk(0xcc), 72, 72),
        Err(BuildError::BadDescriptor)
    );
}

#[test]
fn received_signatures_are_checked() {
    let b = scalar(0x03);
    let bpk = pk(0x03);
    let s_a = scalar(0x02);
    let statement = swap::crypto::public_key_for(&s_a).unwrap();
    let digest = vec![0x07u8; 32];

    let es = swap::crypto::encsign(&b, &statement, &digest).unwrap();
    assert_eq!(receive_encsig(&bpk, &statement, &digest, es.clone()), Ok(es.clone()));
    let mut bad = es.clone();
    bad[5] ^= 0xff;
    assert_eq!(receive_encsig(&bpk, &statement, &digest, bad), Err(CryptoError::BadAdaptor));
    let wrong_statement = pk(0x05);
    assert_eq!(
        receive_encsig(&bpk, &wrong_statement, &digest, es),
        Err(CryptoError::BadAdaptor)
    );

    let sig = swap::crypto::sign(&b, &digest).unwrap();
    assert_eq!(receive_sig(&bpk, &digest, sig.clone()), Ok(sig.clone()));
    let other_digest = vec![0x08u8; 32];
    assert_eq!(
        receive_sig(&bpk, &other_digest, sig),
        Err(CryptoError::SignatureMismatch)
    );
}
