//! The boundary to the `ring` crate: everything here is believed, not proved.
//!
//! A key pair crosses this boundary as the bytes of its PKCS#8 document, a
//! public key and a signature as their bytes.

use ring::error::KeyRejected;
use ring::error::Unspecified;
use ring::rand::SystemRandom;
use ring::signature::Ed25519KeyPair;
use ring::signature::KeyPair;
use ring::signature::UnparsedPublicKey;
use ring::signature::ED25519;
use vstd::prelude::*;

verus! {

/// `ring::error::Unspecified`, carried through as an opaque value.
#[verifier::external_type_specification]
#[verifier::external_body]
pub struct ExUnspecified(ring::error::Unspecified);

/// `ring::error::KeyRejected`, carried through as an opaque value.
#[verifier::external_type_specification]
#[verifier::external_body]
pub struct ExKeyRejected(ring::error::KeyRejected);

/// `ring::rand::SystemRandom`, carried through as an opaque value.
#[verifier::external_type_specification]
#[verifier::external_body]
pub struct ExSystemRandom(ring::rand::SystemRandom);

/// `SystemRandom::new` always returns; nothing is claimed about the handle.
pub assume_specification[ ring::rand::SystemRandom::new ]() -> (rng: ring::rand::SystemRandom);

/// The public key of the key pair that `Ed25519KeyPair::from_pkcs8` builds
/// from the document `pkcs8`, or `None` where it rejects the document.
pub uninterp spec fn ed25519_public_key(pkcs8: Seq<u8>) -> Option<Seq<u8>>;

/// The signature that `Ed25519KeyPair::sign` gives for `msg` under the key
/// pair built from the document `pkcs8`. Ed25519 signing draws no randomness.
pub uninterp spec fn ed25519_signature(pkcs8: Seq<u8>, msg: Seq<u8>) -> Seq<u8>;

/// Whether `UnparsedPublicKey::verify`, for the algorithm `ED25519`, accepts
/// `signature` as a signature of `msg` under `public_key`.
pub uninterp spec fn ed25519_accepts(public_key: Seq<u8>, msg: Seq<u8>, signature: Seq<u8>) -> bool;

/// Calls `Ed25519KeyPair::generate_pkcs8` and copies the document out.
///
/// The document depends on the random source, so nothing is claimed about it.
#[verifier::external_body]
pub(crate) fn generate_pkcs8(rng: &SystemRandom) -> (outcome: Result<Vec<u8>, Unspecified>) {
    match Ed25519KeyPair::generate_pkcs8(rng) {
        Ok(document) => Ok(document.as_ref().to_vec()),
        Err(e) => Err(e),
    }
}

/// Calls `Ed25519KeyPair::from_pkcs8` and copies out the public key of the
/// key pair it built.
///
/// Claimed: the outcome is the named one for these bytes, and a public key is
/// 32 bytes long (`ED25519_PUBLIC_KEY_LEN`).
#[verifier::external_body]
pub(crate) fn public_key_from_pkcs8(pkcs8: &[u8]) -> (outcome: Result<Vec<u8>, KeyRejected>)
    ensures
        match outcome {
            Ok(public_key) => ed25519_public_key(pkcs8@) == Some(public_key@)
                && public_key@.len() == 32,
            Err(_) => ed25519_public_key(pkcs8@) is None,
        },
{
    match Ed25519KeyPair::from_pkcs8(pkcs8) {
        Ok(key_pair) => Ok(key_pair.public_key().as_ref().to_vec()),
        Err(e) => Err(e),
    }
}

/// Calls `Ed25519KeyPair::sign` on the key pair that
/// `Ed25519KeyPair::from_pkcs8` builds from `pkcs8`, and copies the signature
/// out.
///
/// Claimed: the document is rejected exactly where it has no named public
/// key; the signature is the named one, is 64 bytes long, and is accepted by
/// `UnparsedPublicKey::verify` for the same message under the key pair's own
/// public key, as the crate's documentation of signing and verifying shows.
#[verifier::external_body]
pub(crate) fn sign_with_pkcs8(pkcs8: &[u8], msg: &[u8]) -> (outcome: Result<Vec<u8>, KeyRejected>)
    ensures
        match outcome {
            Ok(signature) => ed25519_public_key(pkcs8@) is Some
                && signature@ == ed25519_signature(pkcs8@, msg@)
                && signature@.len() == 64
                && ed25519_accepts(ed25519_public_key(pkcs8@).unwrap(), msg@, signature@),
            Err(_) => ed25519_public_key(pkcs8@) is None,
        },
{
    match Ed25519KeyPair::from_pkcs8(pkcs8) {
        Ok(key_pair) => Ok(key_pair.sign(msg).as_ref().to_vec()),
        Err(e) => Err(e),
    }
}

/// Calls `UnparsedPublicKey::verify` on a key made by
/// `UnparsedPublicKey::new` for the algorithm `ED25519`.
///
/// Claimed: it returns `Ok` exactly where the named check accepts.
#[verifier::external_body]
pub(crate) fn verify_signature(public_key: &[u8], msg: &[u8], signature: &[u8]) -> (outcome: Result<
    (),
    Unspecified,
>)
    ensures
        outcome is Ok <==> ed25519_accepts(public_key@, msg@, signature@),
{
    UnparsedPublicKey::new(&ED25519, public_key).verify(msg, signature)
}

} // verus!
