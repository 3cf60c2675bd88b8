//! Ed25519 key pairs, issued fresh from the system's random source.

use crate::ed25519::ed25519_accepts;
use crate::ed25519::ed25519_public_key;
use crate::ed25519::ed25519_signature;
use crate::ed25519::generate_pkcs8;
use crate::ed25519::public_key_from_pkcs8;
use crate::ed25519::sign_with_pkcs8;
use crate::ed25519::verify_signature;
use crate::error::KeyGenError;
use ring::error::Unspecified;
use ring::rand::SystemRandom;
use vstd::prelude::*;

verus! {

/// An Ed25519 key pair: its PKCS#8 document and the public key in it.
///
/// Every value was accepted by the provider: the public key is the one the
/// provider reads from the document.
pub struct Ed25519KeyPairGenerator {
    pkcs8: Vec<u8>,
    public_key: Vec<u8>,
}

impl View for Ed25519KeyPairGenerator {
    type V = Seq<u8>;

    /// A key pair is modelled by the bytes of its PKCS#8 document.
    closed spec fn view(&self) -> Seq<u8> {
        self.pkcs8@
    }
}

/// Whether the provider accepts `pkcs8` as the document of a key pair.
pub open spec fn is_key_document(pkcs8: Seq<u8>) -> bool {
    ed25519_public_key(pkcs8) is Some
}

/// The public key of the key pair with document `pkcs8`.
pub open spec fn public_key_of(pkcs8: Seq<u8>) -> Seq<u8>
    recommends
        is_key_document(pkcs8),
{
    ed25519_public_key(pkcs8).unwrap()
}

impl Ed25519KeyPairGenerator {
    #[verifier::type_invariant]
    spec fn accepted(self) -> bool {
        &&& ed25519_public_key(self.pkcs8@) == Some(self.public_key@)
        &&& self.public_key@.len() == 32
    }

    /// Issues a fresh key pair from the system's random source.
    ///
    /// Which key pair comes out, and whether one does, is up to the random
    /// source; `from_generated` says what is made of each outcome.
    pub fn generate() -> (issued: Result<Ed25519KeyPairGenerator, KeyGenError>)
        ensures
            issued matches Ok(key_pair) ==> is_key_document(key_pair@),
    {
        let rng = SystemRandom::new();
        Ed25519KeyPairGenerator::from_generated(generate_pkcs8(&rng))
    }

    /// Builds the key pair from the outcome of generating a PKCS#8 document.
    pub fn from_generated(outcome: Result<Vec<u8>, Unspecified>) -> (issued: Result<
        Ed25519KeyPairGenerator,
        KeyGenError,
    >)
        ensures
            match outcome {
                Ok(pkcs8) => match issued {
                    Ok(key_pair) => is_key_document(pkcs8@) && key_pair@ == pkcs8@,
                    Err(e) => !is_key_document(pkcs8@) && e is KeyPairCreation,
                },
                Err(failure) => issued matches Err(KeyGenError::Pkcs8Generation(f)) && f
                    == failure,
            },
    {
        match outcome {
            Ok(pkcs8) => Ed25519KeyPairGenerator::from_pkcs8(pkcs8),
            Err(failure) => Err(KeyGenError::Pkcs8Generation(failure)),
        }
    }

    /// Builds the key pair held in a PKCS#8 document, if the provider
    /// accepts the document.
    pub fn from_pkcs8(pkcs8: Vec<u8>) -> (issued: Result<Ed25519KeyPairGenerator, KeyGenError>)
        ensures
            match issued {
                Ok(key_pair) => is_key_document(pkcs8@) && key_pair@ == pkcs8@,
                Err(e) => !is_key_document(pkcs8@) && e is KeyPairCreation,
            },
    {
        match public_key_from_pkcs8(pkcs8.as_slice()) {
            Ok(public_key) => Ok(Ed25519KeyPairGenerator { pkcs8, public_key }),
            Err(rejection) => Err(KeyGenError::KeyPairCreation(rejection)),
        }
    }

    /// The public key, 32 bytes.
    pub fn public_key(&self) -> (public_key: &Vec<u8>)
        ensures
            is_key_document(self@),
            public_key@ == public_key_of(self@),
            public_key@.len() == 32,
    {
        proof {
            use_type_invariant(self);
        }
        &self.public_key
    }

    /// Signs `msg` with the private key.
    ///
    /// The signature is 64 bytes, and the provider accepts it for `msg`
    /// under this key pair's public key.
    pub fn sign(&self, msg: &[u8]) -> (signature: Vec<u8>)
        ensures
            is_key_document(self@),
            signature@ == ed25519_signature(self@, msg@),
            signature@.len() == 64,
            ed25519_accepts(public_key_of(self@), msg@, signature@),
    {
        proof {
            use_type_invariant(self);
        }
        match sign_with_pkcs8(self.pkcs8.as_slice(), msg) {
            Ok(signature) => signature,
            Err(_) => vstd::pervasive::unreached(),
        }
    }

    /// Checks `signature` against `msg` under this key pair's public key.
    pub fn verify(&self, msg: &[u8], signature: &[u8]) -> (accepted: bool)
        ensures
            is_key_document(self@),
            accepted == ed25519_accepts(public_key_of(self@), msg@, signature@),
    {
        proof {
            use_type_invariant(self);
        }
        signature_accepted(self.public_key.as_slice(), msg, signature)
    }
}

/// Checks `signature` against `msg` under `public_key`: a signature that
/// does not match, or bytes that are no key or no signature, give `false`.
pub fn signature_accepted(public_key: &[u8], msg: &[u8], signature: &[u8]) -> (accepted: bool)
    ensures
        accepted == ed25519_accepts(public_key@, msg@, signature@),
{
    match verify_signature(public_key, msg, signature) {
        Ok(_) => true,
        Err(_) => false,
    }
}

} // verus!
