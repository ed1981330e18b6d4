//! ECDSA and adaptor-signature primitives on secp256k1.
//!
//! Every value crosses this boundary as plain bytes: secret keys and
//! decryption keys are 32-byte scalars, public keys 33-byte compressed
//! points, signatures 64-byte compact encodings, and encrypted (adaptor)
//! signatures their 162-byte canonical encoding. The operations themselves
//! are deterministic functions of those bytes (all signing is
//! nonce-deterministic per key and message), so each is given a name here
//! and the trusted wrappers state their results through those names.

use vstd::prelude::*;

use ecdsa_fun::adaptor::{Adaptor, EncryptedSignature, HashTranscript};
use ecdsa_fun::fun::marker::{Mark, NonZero};
use ecdsa_fun::fun::{Point, Scalar};
use ecdsa_fun::nonce::Deterministic;
use ecdsa_fun::{Signature, ECDSA};
use rand_chacha::ChaCha20Rng;
use sha2::Digest;
use sha2::Sha256;

verus! {

/// Whether the bytes are a valid non-zero secp256k1 scalar,
/// as decided by `secp256kfun::Scalar::from_slice`.
pub uninterp spec fn scalar_ok(b: Seq<u8>) -> bool;

/// Whether the bytes are a valid compressed secp256k1 point,
/// as decided by `secp256kfun::Point::from_slice`.
pub uninterp spec fn point_ok(b: Seq<u8>) -> bool;

/// Whether the bytes are a valid 64-byte compact ECDSA signature,
/// as decided by `ecdsa_fun::Signature::from_bytes`.
pub uninterp spec fn sig_ok(b: Seq<u8>) -> bool;

/// Whether the bytes are a valid 162-byte encrypted-signature encoding,
/// as decided by its canonical deserializer.
pub uninterp spec fn encsig_ok(b: Seq<u8>) -> bool;

/// The compressed public point of a secret scalar,
/// as computed by `ECDSA::verification_key_for`.
pub uninterp spec fn point_of(x: Seq<u8>) -> Seq<u8>;

/// The deterministic ECDSA signature by secret key `x` on 32-byte digest `m`,
/// as computed by `ECDSA::sign`.
pub uninterp spec fn sign_of(x: Seq<u8>, m: Seq<u8>) -> Seq<u8>;

/// Whether signature `s` verifies against public key `xk` and digest `m`,
/// as decided by `ECDSA::verify`.
pub uninterp spec fn verify_ok(xk: Seq<u8>, m: Seq<u8>, s: Seq<u8>) -> bool;

/// The deterministic encrypted (adaptor) signature by secret key `x` on
/// digest `m` with statement point `yk`, as computed by
/// `Adaptor::encrypted_sign`.
pub uninterp spec fn encsign_of(x: Seq<u8>, yk: Seq<u8>, m: Seq<u8>) -> Seq<u8>;

/// Whether encrypted signature `es` verifies against public key `xk`,
/// statement point `yk` and digest `m`, as decided by
/// `Adaptor::verify_encrypted_signature`.
pub uninterp spec fn encverify_ok(xk: Seq<u8>, yk: Seq<u8>, m: Seq<u8>, es: Seq<u8>) -> bool;

/// The signature obtained by decrypting encrypted signature `es` with
/// decryption key `y`, as computed by `Adaptor::decrypt_signature`.
pub uninterp spec fn decrypt_of(es: Seq<u8>, y: Seq<u8>) -> Seq<u8>;

/// The decryption key recovered from an encrypted signature and its
/// decryption, as computed by `Adaptor::recover_decryption_key`.
pub uninterp spec fn recover_of(yk: Seq<u8>, s: Seq<u8>, es: Seq<u8>) -> Option<Seq<u8>>;

/// Whether a signature can disclose the decryption key of `statement`:
/// some valid scalar has `statement` as its public point and yields the
/// signature when the encrypted signature is decrypted with it. This is the
/// condition under which `Adaptor::recover_decryption_key` succeeds.
pub open spec fn recoverable(s: Seq<u8>, statement: Seq<u8>, encsig: Seq<u8>) -> bool {
    &&& point_ok(statement)
    &&& encsig_ok(encsig)
    &&& exists|y: Seq<u8>|
        scalar_ok(y) && #[trigger] point_of(y) == statement && s == decrypt_of(encsig, y)
}

/// The SHA-256 digest of a byte string, as computed by `sha2::Sha256`.
pub uninterp spec fn sha256_of(b: Seq<u8>) -> Seq<u8>;

/// Whether the bytes are a valid 64-byte compact ECDSA signature encoding,
/// as decided by `secp256k1::Signature::from_compact`.
pub uninterp spec fn compact_ok(b: Seq<u8>) -> bool;

/// The DER encoding of a compact signature,
/// as computed by `secp256k1::Signature::serialize_der`.
pub uninterp spec fn der_of(s: Seq<u8>) -> Seq<u8>;

/// The compact signature encoded by a DER byte string, if any,
/// as decided by `secp256k1::Signature::from_der`.
pub uninterp spec fn der_parse_of(b: Seq<u8>) -> Option<Seq<u8>>;

/// Relies on `sha2::Sha256`: a pure 32-byte digest of the input bytes.
#[verifier::external_body]
pub fn sha256(b: &Vec<u8>) -> (r: Vec<u8>)
    ensures
        r@ == sha256_of(b@) && r@.len() == 32,
{
    Sha256::digest(b.as_slice()).to_vec()
}

/// Relies on `secp256k1::Signature::{from_compact, serialize_der}`: the DER
/// encoding is a function of the signature alone, and parsing it back
/// returns the same compact bytes.
#[verifier::external_body]
pub fn sig_to_der(s: &Vec<u8>) -> (r: Option<Vec<u8>>)
    ensures
        r is Some <==> compact_ok(s@),
        r matches Some(d) ==> (d@ == der_of(s@) && der_parse_of(d@) == Some(s@)),
{
    let sig = bitcoin::secp256k1::Signature::from_compact(s.as_slice()).ok()?;
    Some(sig.serialize_der().to_vec())
}

/// Relies on `secp256k1::Signature::{from_der, serialize_compact}`: parsing
/// DER bytes is a pure function of those bytes, and a parsed signature is
/// again a valid compact encoding.
#[verifier::external_body]
pub fn sig_from_der(d: &Vec<u8>) -> (r: Option<Vec<u8>>)
    ensures
        r is Some <==> der_parse_of(d@) is Some,
        r matches Some(s) ==> (der_parse_of(d@) == Some(s@) && s@.len() == 64 && compact_ok(s@)),
{
    let sig = bitcoin::secp256k1::Signature::from_der(d.as_slice()).ok()?;
    Some(sig.serialize_compact().to_vec())
}

/// Relies on `ECDSA::verification_key_for`: the public point of a scalar is
/// a function of the scalar alone, and its 33-byte compressed encoding is
/// again a valid point.
#[verifier::external_body]
pub fn public_key_for(x: &Vec<u8>) -> (r: Option<Vec<u8>>)
    ensures
        r is Some <==> scalar_ok(x@),
        r matches Some(pk) ==> (pk@ == point_of(x@) && pk@.len() == 33 && point_ok(pk@)),
{
    let x = Scalar::from_slice(x.as_slice())?.mark::<NonZero>()?;
    let ecdsa = ECDSA::<Deterministic<Sha256>>::default();
    Some(ecdsa.verification_key_for(&x).to_bytes().to_vec())
}

/// Relies on `ECDSA::sign`: deterministic per `(x, m)`, producing a valid
/// compact encoding, and (as its documentation shows by example) a signature
/// that `ECDSA::verify` accepts under the signer's public key.
#[verifier::external_body]
pub fn sign(x: &Vec<u8>, m: &Vec<u8>) -> (r: Option<Vec<u8>>)
    ensures
        r is Some <==> (scalar_ok(x@) && m@.len() == 32),
        r matches Some(s) ==> (s@ == sign_of(x@, m@) && s@.len() == 64 && sig_ok(s@)
            && compact_ok(s@) && verify_ok(point_of(x@), m@, s@)),
{
    let x = Scalar::from_slice(x.as_slice())?.mark::<NonZero>()?;
    let m: &[u8; 32] = m.as_slice().try_into().ok()?;
    let ecdsa = ECDSA::<Deterministic<Sha256>>::default();
    Some(ecdsa.sign(&x, m).to_bytes().to_vec())
}

/// Relies on `ECDSA::verify`: a pure function of the key, digest and
/// signature. `None` reports arguments that do not parse.
#[verifier::external_body]
pub fn verify_sig(xk: &Vec<u8>, m: &Vec<u8>, s: &Vec<u8>) -> (r: Option<bool>)
    ensures
        r is Some <==> (point_ok(xk@) && m@.len() == 32 && sig_ok(s@)),
        r matches Some(ok) ==> (ok == verify_ok(xk@, m@, s@)),
{
    let xk = Point::from_slice(xk.as_slice())?;
    let m: &[u8; 32] = m.as_slice().try_into().ok()?;
    let s: &[u8; 64] = s.as_slice().try_into().ok()?;
    let s = Signature::from_bytes(*s)?;
    let ecdsa = ECDSA::verify_only();
    Some(ecdsa.verify(&xk, m, &s))
}

/// Relies on `Adaptor::encrypted_sign`: deterministic per key, statement and
/// digest; its result round-trips through the canonical encoding; and, as
/// the adaptor documentation shows in its synopsis,
/// `Adaptor::verify_encrypted_signature` accepts it under the signer's
/// public key and the same statement point.
#[verifier::external_body]
pub fn encsign(x: &Vec<u8>, yk: &Vec<u8>, m: &Vec<u8>) -> (r: Option<Vec<u8>>)
    ensures
        r is Some <==> (scalar_ok(x@) && point_ok(yk@) && m@.len() == 32),
        r matches Some(es) ==> (es@ == encsign_of(x@, yk@, m@) && encsig_ok(es@)
            && encverify_ok(point_of(x@), yk@, m@, es@)),
{
    let x = Scalar::from_slice(x.as_slice())?.mark::<NonZero>()?;
    let yk = Point::from_slice(yk.as_slice())?;
    let m: &[u8; 32] = m.as_slice().try_into().ok()?;
    let adaptor = Adaptor::<HashTranscript<Sha256, ChaCha20Rng>, Deterministic<Sha256>>::default();
    let es = adaptor.encrypted_sign(&x, &yk, m);
    bincode::serialize(&es).ok()
}

/// Relies on `Adaptor::verify_encrypted_signature`: a pure function of the
/// key, statement, digest and encrypted signature. `None` reports arguments
/// that do not parse.
#[verifier::external_body]
pub fn verify_encsig(xk: &Vec<u8>, yk: &Vec<u8>, m: &Vec<u8>, es: &Vec<u8>) -> (r: Option<bool>)
    ensures
        r is Some <==> (point_ok(xk@) && point_ok(yk@) && m@.len() == 32 && encsig_ok(es@)),
        r matches Some(ok) ==> (ok == encverify_ok(xk@, yk@, m@, es@)),
{
    let xk = Point::from_slice(xk.as_slice())?;
    let yk = Point::from_slice(yk.as_slice())?;
    let m: &[u8; 32] = m.as_slice().try_into().ok()?;
    let es: EncryptedSignature = bincode::deserialize(es.as_slice()).ok()?;
    let adaptor = Adaptor::<HashTranscript<Sha256, ChaCha20Rng>, ()>::verify_only();
    Some(adaptor.verify_encrypted_signature(&xk, &yk, m, &es))
}

/// Relies on `Adaptor::decrypt_signature`: a pure function of the encrypted
/// signature and the decryption key, yielding a valid compact signature;
/// and on the documentation of `Adaptor::verify_encrypted_signature`, which
/// promises that a verified encrypted signature decrypts to a signature that
/// `ECDSA::verify` accepts on the same digest under the same public key.
#[verifier::external_body]
pub fn decrypt_signature(y: &Vec<u8>, es: &Vec<u8>) -> (r: Option<Vec<u8>>)
    ensures
        r is Some <==> (scalar_ok(y@) && encsig_ok(es@)),
        r matches Some(sg) ==> (sg@ == decrypt_of(es@, y@) && sg@.len() == 64 && sig_ok(sg@)
            && compact_ok(sg@)),
        r matches Some(sg) ==> (forall|xk: Seq<u8>, m: Seq<u8>|
            encverify_ok(xk, point_of(y@), m, es@) ==> verify_ok(xk, m, sg@)),
{
    let y = Scalar::from_slice(y.as_slice())?.mark::<NonZero>()?;
    let es: EncryptedSignature = bincode::deserialize(es.as_slice()).ok()?;
    let adaptor = Adaptor::<HashTranscript<Sha256, ChaCha20Rng>, ()>::verify_only();
    Some(adaptor.decrypt_signature(&y, es).to_bytes().to_vec())
}

/// Relies on `Adaptor::recover_decryption_key`, with the low-s rule
/// switched on so that only the canonical decryption is accepted: a pure
/// function of the statement point, a signature and an encrypted signature.
/// Its documentation promises that when it returns a key, the signature is
/// the unique decryption of the encrypted signature under that key, whose
/// public point is the statement point; and that it returns `None` exactly
/// when the signature is not the decryption of the encrypted signature.
#[verifier::external_body]
pub fn recover(yk: &Vec<u8>, s: &Vec<u8>, es: &Vec<u8>) -> (r: Option<Vec<u8>>)
    ensures
        r matches Some(y) ==> (point_ok(yk@) && sig_ok(s@) && encsig_ok(es@) && scalar_ok(y@)
            && point_of(y@) == yk@ && decrypt_of(es@, y@) == s@
            && recover_of(yk@, s@, es@) == Some(y@)),
        r is None ==> (!(point_ok(yk@) && sig_ok(s@) && encsig_ok(es@))
            || (forall|y: Seq<u8>|
                !(scalar_ok(y) && point_of(y) == yk@ && s@ == decrypt_of(es@, y)))),
{
    let ykp = Point::from_slice(yk.as_slice())?;
    let s: &[u8; 64] = s.as_slice().try_into().ok()?;
    let s = Signature::from_bytes(*s)?;
    let es: EncryptedSignature = bincode::deserialize(es.as_slice()).ok()?;
    let mut adaptor = Adaptor::<HashTranscript<Sha256, ChaCha20Rng>, ()>::verify_only();
    adaptor.ecdsa.enforce_low_s = true;
    adaptor.recover_decryption_key(&ykp, &s, &es).map(|y| y.to_bytes().to_vec())
}

} // verus!
