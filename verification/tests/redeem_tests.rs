//! The redeem builder: construction, digests, completion, extraction.

use sha2::Digest;

use swap::btc_lock::BtcLock;
use swap::btc_redeem::{BtcRedeem, BuildError, CompleteError, ExtractError};
use swap::transaction::{OutPoint, Transaction, TxIn, TxOut};

fn scalar(fill: u8) -> Vec<u8> {
    vec![fill; 32]
}

fn pk(fill: u8) -> Vec<u8> {
    swap::crypto::public_key_for(&scalar(fill)).unwrap()
}

fn redeem_spk() -> Vec<u8> {
    let mut spk = vec![0x00u8, 0x14];
    spk.extend_from_slice(&[0xab; 20]);
    spk
}

/// A lock transaction with a dummy first output and the shared output,
/// holding `amount` satoshi, second.
fn lock(amount: u64) -> BtcLock {
    let pk_a = pk(0x01);
    let pk_b = pk(0x03);
    let shared = swap::script::shared_spk(&pk_a, &pk_b);
    BtcLock {
        txid: vec![0xaa; 32],
        output: vec![
            TxOut { value: 500, script_pubkey: vec![0x51] },
            TxOut { value: amount, script_pubkey: shared },
        ],
        pk_a,
        pk_b,
    }
}

#[test]
fn lock_output_is_found() {
    let l = lock(1_000_000);
    assert_eq!(l.lock_output_vout(), Some(1));
    assert_eq!(l.lock_amount(), Some(1_000_000));
}

#[test]
fn lock_output_missing() {
    let mut l = lock(1_000_000);
    l.output.remove(1);
    assert_eq!(l.lock_output_vout(), None);
    assert_eq!(l.lock_amount(), None);
}

#[test]
fn new_builds_exact_spend() {
    let l = lock(1_000_000);
    let r = BtcRedeem::new(&l, &redeem_spk()).unwrap();
    assert_eq!(r.inner.version, 2);
    assert_eq!(r.inner.lock_time, 0);
    assert_eq!(r.inner.input.len(), 1);
    assert_eq!(r.inner.input[0].previous_output.txid, vec![0xaa; 32]);
    assert_eq!(r.inner.input[0].previous_output.vout, 1);
    assert_eq!(r.inner.input[0].sequence, 0xffff_ffff);
    assert_eq!(r.inner.output.len(), 1);
    assert_eq!(r.inner.output[0].value, 990_000);
    assert_eq!(r.inner.output[0].script_pubkey, redeem_spk());
    assert_eq!(r.digest().len(), 32);
    assert_eq!(r.lock_amount, 1_000_000);
}

#[test]
fn new_underflow_and_bad_descriptor() {
    assert_eq!(BtcRedeem::new(&lock(10_000), &redeem_spk()), Err(BuildError::Underflow));
    assert_eq!(BtcRedeem::new(&lock(10_546), &redeem_spk()), Err(BuildError::Underflow));
    assert!(BtcRedeem::new(&lock(10_547), &redeem_spk()).is_ok());
    let mut l = lock(1_000_000);
    l.output.remove(1);
    assert_eq!(BtcRedeem::new(&l, &redeem_spk()), Err(BuildError::BadDescriptor));
    let mut l = lock(1_000_000);
    l.txid = vec![0xaa; 31];
    assert_eq!(BtcRedeem::new(&l, &redeem_spk()), Err(BuildError::BadDescriptor));
}

#[test]
fn txid_matches_reference_library() {
    let l = lock(1_000_000);
    let r = BtcRedeem::new(&l, &redeem_spk()).unwrap();
    let prev = <bitcoin::Txid as bitcoin::hashes::Hash>::from_slice(&l.txid).unwrap();
    let tx = bitcoin::Transaction {
        version: 2,
        lock_time: 0,
        input: vec![bitcoin::TxIn {
            previous_output: bitcoin::OutPoint::new(prev, 1),
            script_sig: bitcoin::Script::new(),
            sequence: 0xffff_ffff,
            witness: vec![],
        }],
        output: vec![bitcoin::TxOut {
            value: 990_000,
            script_pubkey: bitcoin::Script::from(redeem_spk()),
        }],
    };
    let reference = bitcoin::hashes::Hash::into_inner(tx.txid()).to_vec();
    assert_eq!(r.txid(), reference);
    let op = r.as_outpoint();
    assert_eq!(op.txid, reference);
    assert_eq!(op.vout, 0);
    assert_eq!(r.id(), reference);
}

#[test]
fn digest_matches_reference_library() {
    let l = lock(1_000_000);
    let r = BtcRedeem::new(&l, &redeem_spk()).unwrap();
    let ws = swap::script::shared_script(&l.pk_a, &l.pk_b);
    let prev = <bitcoin::Txid as bitcoin::hashes::Hash>::from_slice(&l.txid).unwrap();
    let tx = bitcoin::Transaction {
        version: 2,
        lock_time: 0,
        input: vec![bitcoin::TxIn {
            previous_output: bitcoin::OutPoint::new(prev, 1),
            script_sig: bitcoin::Script::new(),
            sequence: 0xffff_ffff,
            witness: vec![],
        }],
        output: vec![bitcoin::TxOut {
            value: 990_000,
            script_pubkey: bitcoin::Script::from(redeem_spk()),
        }],
    };
    let mut cache = bitcoin::util::bip143::SigHashCache::new(&tx);
    let reference = cache.signature_hash(
        0,
        &bitcoin::Script::from(ws),
        1_000_000,
        bitcoin::SigHashType::All,
    );
    assert_eq!(r.digest(), bitcoin::hashes::Hash::into_inner(reference).to_vec());
}

#[test]
fn shared_script_commits_to_sorted_keys() {
    let pk_a = pk(0x01);
    let pk_b = pk(0x03);
    let ws = swap::script::shared_script(&pk_a, &pk_b);
    let sw = swap::script::shared_script(&pk_b, &pk_a);
    assert_eq!(ws, sw);
    assert_eq!(ws.len(), 70);
    assert_eq!(ws[0], 0x21);
    assert_eq!(ws[34], 0xad);
    assert_eq!(ws[35], 0x21);
    assert_eq!(ws[69], 0xac);
    // the larger key stands first in the script, so that the witness — the
    // smaller key's signature below the larger key's — satisfies it
    let (kmin, kmax) = if pk_a < pk_b { (&pk_a, &pk_b) } else { (&pk_b, &pk_a) };
    assert_eq!(&ws[1..34], kmax.as_slice());
    assert_eq!(&ws[36..69], kmin.as_slice());
    let spk = swap::script::shared_spk(&pk_a, &pk_b);
    assert_eq!(spk[0], 0x00);
    assert_eq!(spk[1], 0x20);
    assert_eq!(&spk[2..], sha2::Sha256::digest(&ws).as_slice());
}

#[test]
fn complete_extract_recover_chain() {
    let a = scalar(0x01);
    let b = scalar(0x03);
    let s_a = scalar(0x02);
    let apk = pk(0x01);
    let bpk = pk(0x03);
    let statement = swap::crypto::public_key_for(&s_a).unwrap();
    let l = lock(1_000_000);
    let r = BtcRedeem::new(&l, &redeem_spk()).unwrap();

    // Bob produces the encrypted signature on the redeem digest.
    let es = r.encsig(&b, &statement).unwrap();
    assert_eq!(swap::crypto::verify_encsig(&bpk, &statement, &r.digest(), &es), Some(true));

    // Alice completes and "broadcasts".
    let tx = r.complete(&a, &s_a, &bpk, &es).unwrap();
    assert_eq!(tx.input[0].witness.len(), 3);
    let ws = swap::script::shared_script(&apk, &bpk);
    assert_eq!(tx.input[0].witness[2], ws);
    assert_eq!(*tx.input[0].witness[0].last().unwrap(), 0x01);
    assert_eq!(*tx.input[0].witness[1].last().unwrap(), 0x01);

    // Bob observes the spend, pulls out his decrypted signature and
    // recovers Alice's Monero key half.
    let sig_b = r.extract_signature_by_key(&tx, &bpk).unwrap();
    assert_eq!(swap::crypto::verify_sig(&bpk, &r.digest(), &sig_b), Some(true));
    let recovered = swap::crypto::recover(&statement, &sig_b, &es).unwrap();
    assert_eq!(recovered, s_a);

    // the two steps composed: Bob's one-call recovery
    let y = r.recover_key_half(&tx, &bpk, &statement, &es).unwrap();
    assert_eq!(y, s_a);
}

#[test]
fn complete_error_cases() {
    let a = scalar(0x01);
    let s_a = scalar(0x02);
    let bpk = pk(0x03);
    let statement = swap::crypto::public_key_for(&s_a).unwrap();
    let l = lock(1_000_000);
    let r = BtcRedeem::new(&l, &redeem_spk()).unwrap();
    let es = r.encsig(&scalar(0x03), &statement).unwrap();

    assert_eq!(r.complete(&vec![0u8; 32], &s_a, &bpk, &es), Err(CompleteError::InvalidKey));
    assert_eq!(r.complete(&a, &vec![0u8; 32], &bpk, &es), Err(CompleteError::InvalidKey));
    let mut tampered = es.clone();
    tampered[40] ^= 0xff;
    assert_eq!(r.complete(&a, &s_a, &bpk, &tampered), Err(CompleteError::BadAdaptor));
    // an encrypted signature under the wrong statement point is refused
    let other_statement = pk(0x04);
    let wrong = r.encsig(&scalar(0x03), &other_statement).unwrap();
    assert_eq!(r.complete(&a, &s_a, &bpk, &wrong), Err(CompleteError::BadAdaptor));

    // an input that already carries a witness is refused
    let signed = r.complete(&a, &s_a, &bpk, &es).unwrap();
    let mut again = BtcRedeem::new(&l, &redeem_spk()).unwrap();
    again.inner = signed;
    assert_eq!(again.complete(&a, &s_a, &bpk, &es), Err(CompleteError::AlreadySigned));
}

#[test]
fn extract_error_cases() {
    let l = lock(1_000_000);
    let r = BtcRedeem::new(&l, &redeem_spk()).unwrap();
    let bpk = pk(0x03);

    let no_inputs = Transaction { version: 2, lock_time: 0, input: vec![], output: vec![] };
    assert_eq!(r.extract_signature_by_key(&no_inputs, &bpk), Err(ExtractError::NoInputs));

    let txin = |witness: Vec<Vec<u8>>| TxIn {
        previous_output: OutPoint { txid: vec![0xaa; 32], vout: 0 },
        sequence: 0,
        witness,
    };
    let two = Transaction {
        version: 2,
        lock_time: 0,
        input: vec![txin(vec![]), txin(vec![])],
        output: vec![],
    };
    assert_eq!(r.extract_signature_by_key(&two, &bpk), Err(ExtractError::TooManyInputs));

    let empty = Transaction { version: 2, lock_time: 0, input: vec![txin(vec![])], output: vec![] };
    assert_eq!(r.extract_signature_by_key(&empty, &bpk), Err(ExtractError::EmptyWitnessStack));

    let two_items = Transaction {
        version: 2,
        lock_time: 0,
        input: vec![txin(vec![vec![1], vec![2]])],
        output: vec![],
    };
    assert_eq!(r.extract_signature_by_key(&two_items, &bpk), Err(ExtractError::NotThreeWitnesses));

    let junk = Transaction {
        version: 2,
        lock_time: 0,
        input: vec![txin(vec![vec![1], vec![2], vec![3]])],
        output: vec![],
    };
    assert_eq!(r.extract_signature_by_key(&junk, &bpk), Err(ExtractError::NoMatchingSignature));

    // a witness signed under some other key does not match either
    let a = scalar(0x01);
    let s_a = scalar(0x02);
    let statement = swap::crypto::public_key_for(&s_a).unwrap();
    let es = r.encsig(&scalar(0x03), &statement).unwrap();
    let signed = r.complete(&a, &s_a, &bpk, &es).unwrap();
    let stranger = pk(0x06);
    assert_eq!(
        r.extract_signature_by_key(&signed, &stranger),
        Err(ExtractError::NoMatchingSignature)
    );
}

#[test]
fn recover_key_half_error_cases() {
    let a = scalar(0x01);
    let b = scalar(0x03);
    let s_a = scalar(0x02);
    let bpk = pk(0x03);
    let statement = swap::crypto::public_key_for(&s_a).unwrap();
    let l = lock(1_000_000);
    let r = BtcRedeem::new(&l, &redeem_spk()).unwrap();
    let es = r.encsig(&b, &statement).unwrap();
    let tx = r.complete(&a, &s_a, &bpk, &es).unwrap();

    // extraction errors pass through unchanged
    let no_inputs = Transaction { version: 2, lock_time: 0, input: vec![], output: vec![] };
    assert_eq!(
        r.recover_key_half(&no_inputs, &bpk, &statement, &es),
        Err(ExtractError::NoInputs)
    );

    // the witness signature is not the decryption under the wrong statement
    let wrong_statement = pk(0x05);
    assert_eq!(
        r.recover_key_half(&tx, &bpk, &wrong_statement, &es),
        Err(ExtractError::NoMatchingSignature)
    );

    // and with the right statement the key half comes back
    assert_eq!(r.recover_key_half(&tx, &bpk, &statement, &es), Ok(s_a));
}

#[test]
fn take_transaction_spends_redeem_output() {
    let l = lock(1_000_000);
    let r = BtcRedeem::new(&l, &redeem_spk()).unwrap();
    let dst = vec![0x00u8, 0x14, 0x01, 0x02];
    let tx = r.build_take_transaction(&dst, None).unwrap();
    assert_eq!(tx.input[0].previous_output.txid, r.txid());
    assert_eq!(tx.input[0].previous_output.vout, 0);
    assert_eq!(tx.input[0].sequence, 0xffff_ffff);
    assert_eq!(tx.output[0].value, 980_000);
    assert_eq!(tx.output[0].script_pubkey, dst);
    let seq = r.build_take_transaction(&dst, Some(144)).unwrap();
    assert_eq!(seq.input[0].sequence, 144);
    assert_eq!(r.script(), redeem_spk());
}

#[test]
fn take_transaction_underflow() {
    let l = lock(20_000);
    // redeem output holds 10_000; a further hop would leave dust
    let r = BtcRedeem::new(&l, &redeem_spk()).unwrap();
    assert_eq!(r.inner.output[0].value, 10_000);
    assert_eq!(
        r.build_take_transaction(&redeem_spk(), None),
        Err(BuildError::Underflow)
    );
}

#[test]
fn spendable_amount_formula() {
    assert_eq!(swap::spendable_amount(1_000_000), Some(990_000));
    assert_eq!(swap::spendable_amount(10_546), None);
    assert_eq!(swap::spendable_amount(10_547), Some(547));
}
