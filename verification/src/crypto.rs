//! Cryptographic primitives behind trusted wrappers: SHA-512 digesting and
//! Ed25519 signing and verification, all done by the ring crate.
//!
//! The results are pure functions of the inputs (Ed25519 is the
//! deterministic scheme of RFC 8032), so each is given a name here, and
//! the verified code reasons over those names.

use vstd::prelude::*;

verus! {

/// The SHA-512 digest of a text, as a function of its characters.
pub uninterp spec fn sha512_of(msg: Seq<char>) -> Seq<u8>;

/// Whether a byte string is a well-formed PKCS#8 v2 Ed25519 key document.
pub uninterp spec fn pkcs8_ok(key: Seq<u8>) -> bool;

/// The public key of the key pair held in a PKCS#8 document.
pub uninterp spec fn pkcs8_public_key(key: Seq<u8>) -> Seq<u8>;

/// The Ed25519 signature of a message under the key pair held in a
/// PKCS#8 document.
pub uninterp spec fn ed25519_sig(key: Seq<u8>, msg: Seq<u8>) -> Seq<u8>;

/// Whether Ed25519 verification accepts a signature of a message under
/// a public key.
pub uninterp spec fn ed25519_accepts(public_key: Seq<u8>, msg: Seq<u8>, sig: Seq<u8>) -> bool;

/// Relies on ring::digest::digest with SHA-512: a 64-byte digest that
/// depends on the input bytes alone.
#[verifier::external_body]
pub(crate) fn sha512_text(msg: &str) -> (r: Vec<u8>)
    ensures
        r@ == sha512_of(msg@),
        r@.len() == 64,
{
    ring::digest::digest(&ring::digest::SHA512, msg.as_bytes()).as_ref().to_vec()
}

/// Relies on ring::signature::Ed25519KeyPair::from_pkcs8 and sign:
/// parsing succeeds exactly on well-formed PKCS#8 v2 Ed25519 documents,
/// and signing is the deterministic RFC 8032 scheme, so the 64-byte
/// signature depends on the key document and the message alone, and is
/// accepted by Ed25519 verification under the pair's public key.
#[verifier::external_body]
pub(crate) fn ed25519_sign(key: &[u8], msg: &[u8]) -> (r: Option<Vec<u8>>)
    ensures
        (r is Some) <==> pkcs8_ok(key@),
        r matches Some(s) ==> s@ == ed25519_sig(key@, msg@) && s@.len() == 64,
        r matches Some(s) ==> ed25519_accepts(pkcs8_public_key(key@), msg@, s@),
{
    match ring::signature::Ed25519KeyPair::from_pkcs8(key) {
        Ok(pair) => Some(pair.sign(msg).as_ref().to_vec()),
        Err(_) => None,
    }
}

/// Relies on ring::signature::Ed25519KeyPair::from_pkcs8 and
/// ring::signature::KeyPair::public_key: the 32-byte public key of the
/// pair held in a well-formed PKCS#8 document.
#[verifier::external_body]
pub(crate) fn ed25519_public_key(key: &[u8]) -> (r: Option<Vec<u8>>)
    ensures
        (r is Some) <==> pkcs8_ok(key@),
        r matches Some(p) ==> p@ == pkcs8_public_key(key@) && p@.len() == 32,
{
    match ring::signature::Ed25519KeyPair::from_pkcs8(key) {
        Ok(pair) => Some(ring::signature::KeyPair::public_key(&pair).as_ref().to_vec()),
        Err(_) => None,
    }
}

/// Relies on ring::signature::UnparsedPublicKey::verify with ED25519:
/// acceptance depends on the public key, message and signature alone,
/// and a malformed key or signature is simply rejected.
#[verifier::external_body]
pub(crate) fn ed25519_verify(public_key: &[u8], msg: &[u8], sig: &[u8]) -> (r: bool)
    ensures
        r == ed25519_accepts(public_key@, msg@, sig@),
{
    ring::signature::UnparsedPublicKey::new(&ring::signature::ED25519, public_key)
        .verify(msg, sig)
        .is_ok()
}

} // verus!
