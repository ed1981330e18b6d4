//! The cancel, refund and punish transactions walked end to end.

use swap::btc_cancel::BtcCancel;
use swap::btc_lock::BtcLock;
use swap::btc_punish::BtcPunish;
use swap::btc_redeem::{BuildError, CompleteError};
use swap::btc_refund::BtcRefund;
use swap::transaction::TxOut;

fn scalar(fill: u8) -> Vec<u8> {
    vec![fill; 32]
}

fn pk(fill: u8) -> Vec<u8> {
    swap::crypto::public_key_for(&scalar(fill)).unwrap()
}

fn spk(tag: u8) -> Vec<u8> {
    let mut spk = vec![0x00u8, 0x14];
    spk.extend_from_slice(&[tag; 20]);
    spk
}

fn lock(amount: u64) -> BtcLock {
    let pk_a = pk(0x01);
    let pk_b = pk(0x03);
    let shared = swap::script::shared_spk(&pk_a, &pk_b);
    BtcLock {
        txid: vec![0xaa; 32],
        output: vec![TxOut { value: amount, script_pubkey: shared }],
        pk_a,
        pk_b,
    }
}

#[test]
fn cancel_spends_lock_after_timelock() {
    let l = lock(1_000_000);
    let c = BtcCancel::new(&l, 72).unwrap();
    assert_eq!(c.inner.input[0].previous_output.txid, vec![0xaa; 32]);
    assert_eq!(c.inner.input[0].previous_output.vout, 0);
    assert_eq!(c.inner.input[0].sequence, 72);
    assert_eq!(c.inner.output[0].value, 990_000);
    assert_eq!(c.inner.output[0].script_pubkey, swap::script::shared_spk(&l.pk_a, &l.pk_b));
    assert_eq!(c.digest().len(), 32);
    assert_eq!(BtcCancel::new(&lock(10_000), 72), Err(BuildError::Underflow));
}

#[test]
fn cancel_completes_from_either_side() {
    let a = scalar(0x01);
    let b = scalar(0x03);
    let apk = pk(0x01);
    let bpk = pk(0x03);
    let l = lock(1_000_000);
    let c = BtcCancel::new(&l, 72).unwrap();

    // the handshake signatures
    let sig_a = swap::crypto::sign(&a, &c.digest()).unwrap();
    let sig_b = swap::crypto::sign(&b, &c.digest()).unwrap();

    let by_alice = c.complete(&a, &bpk, &sig_b).unwrap();
    let by_bob = c.complete(&b, &apk, &sig_a).unwrap();
    assert_eq!(by_alice, by_bob);
    assert_eq!(by_alice.input[0].witness.len(), 3);
    assert_eq!(by_alice.input[0].witness[2], swap::script::shared_script(&apk, &bpk));

    // a signature on something else is refused
    let junk_digest = vec![0x55u8; 32];
    let junk = swap::crypto::sign(&b, &junk_digest).unwrap();
    assert_eq!(c.complete(&a, &bpk, &junk), Err(CompleteError::BadSignature));
    assert_eq!(c.complete(&vec![0u8; 32], &bpk, &sig_b), Err(CompleteError::InvalidKey));
}

#[test]
fn refund_pays_bob_two_fees_under_lock() {
    let l = lock(1_000_000);
    let c = BtcCancel::new(&l, 72).unwrap();
    let r = BtcRefund::new(&c, &spk(0xbb)).unwrap();
    assert_eq!(r.inner.input[0].previous_output.txid, c.txid());
    assert_eq!(r.inner.input[0].previous_output.vout, 0);
    assert_eq!(r.inner.input[0].sequence, 0xffff_ffff);
    assert_eq!(r.inner.output[0].value, 980_000);
    assert_eq!(r.inner.output[0].script_pubkey, spk(0xbb));
    // a cancel output too small to pay one more fee cannot be refunded
    let small = BtcCancel::new(&lock(20_000), 72).unwrap();
    assert_eq!(BtcRefund::new(&small, &spk(0xbb)), Err(BuildError::Underflow));
}

#[test]
fn refund_disclosure_chain() {
    let a = scalar(0x01);
    let b = scalar(0x03);
    let s_b = scalar(0x04);
    let apk = pk(0x01);
    let statement_b = swap::crypto::public_key_for(&s_b).unwrap();
    let l = lock(1_000_000);
    let c = BtcCancel::new(&l, 72).unwrap();
    let r = BtcRefund::new(&c, &spk(0xbb)).unwrap();

    // Alice's encrypted signature from the handshake, bound to the
    // secp256k1 image of Bob's Monero key half.
    let es = r.encsig(&a, &statement_b).unwrap();

    // Bob completes and "broadcasts" the refund.
    let tx = r.complete(&b, &s_b, &apk, &es).unwrap();
    assert_eq!(tx.input[0].witness.len(), 3);

    // Alice watches the spend and learns Bob's key half.
    let recovered = r.recover_key_half(&tx, &apk, &statement_b, &es).unwrap();
    assert_eq!(recovered, s_b);
    assert_eq!(r.txid().len(), 32);
    assert_ne!(r.txid(), c.txid());

    // a tampered encrypted signature is refused before anything is signed
    let mut tampered = es.clone();
    tampered[10] ^= 0xff;
    assert_eq!(r.complete(&b, &s_b, &apk, &tampered), Err(CompleteError::BadAdaptor));
}

#[test]
fn punish_pays_alice_after_second_timelock() {
    let a = scalar(0x01);
    let b = scalar(0x03);
    let bpk = pk(0x03);
    let l = lock(1_000_000);
    let c = BtcCancel::new(&l, 72).unwrap();
    let p = BtcPunish::new(&c, &spk(0xcc), 72).unwrap();
    assert_eq!(p.inner.input[0].previous_output.txid, c.txid());
    assert_eq!(p.inner.input[0].sequence, 72);
    assert_eq!(p.inner.output[0].value, 980_000);
    assert_eq!(p.inner.output[0].script_pubkey, spk(0xcc));

    // Bob's handshake signature lets Alice complete it alone.
    let sig_b = swap::crypto::sign(&b, &p.digest()).unwrap();
    let tx = p.complete(&a, &bpk, &sig_b).unwrap();
    assert_eq!(tx.input[0].witness.len(), 3);
    assert_eq!(tx.output[0].value, 980_000);
    assert_eq!(p.script(), spk(0xcc));
    assert_eq!(p.txid().len(), 32);
    assert_ne!(p.txid(), c.txid());
}
