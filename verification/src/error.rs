//! What can go wrong when a key is issued, a document signed or a signature checked.

use ring::error::KeyRejected;
use ring::error::Unspecified;
use vstd::prelude::*;

verus! {

/// A key pair could not be issued.
#[derive(Debug)]
pub enum KeyGenError {
    /// The random source failed, so no PKCS#8 document was generated.
    Pkcs8Generation(Unspecified),
    /// The PKCS#8 document was rejected when the key pair was built from it.
    KeyPairCreation(KeyRejected),
}

/// A document could not be signed.
#[derive(Debug)]
pub enum SignError {
    /// No key pair could be issued for the signature.
    KeyGeneration(KeyGenError),
}

/// A signature could not be checked at all.
///
/// A signature that was checked and found wrong is no error: it is the
/// answer `false`.
#[derive(Debug, Clone, Copy, PartialEq, Eq, Structural)]
pub enum VerifyError {
    /// The document's validity window has passed.
    Expired,
    /// The signer holds no key pair under its identity.
    UnknownKey,
}

} // verus!
