//! The signer: issues a key for each signature and checks signatures
//! against the key it currently holds.

use crate::document::content_type_label;
use crate::document::hash_algorithm_label;
use crate::document::signature_algorithm_label;
use crate::document::DocumentMetadata;
use crate::document::DocumentMetadataView;
use crate::document::InputDocument;
use crate::document::InputDocumentView;
use crate::document::SignedDocument;
use crate::document::SignedDocumentView;
use crate::ed25519::ed25519_accepts;
use crate::ed25519::ed25519_signature;
use crate::error::KeyGenError;
use crate::error::SignError;
use crate::error::VerifyError;
use crate::key_pair::is_key_document;
use crate::key_pair::public_key_of;
use crate::key_pair::Ed25519KeyPairGenerator;
use crate::key_store::KeyStore;
use crate::time::lemma_clock_range_can_add;
use crate::time::TimeSpan;
use crate::time::Timestamp;
use vstd::prelude::*;

verus! {

/// A signer: an identity, the span for which its signatures stay valid, and
/// the key pairs it holds.
pub struct DocSigner {
    signer_id: String,
    expires_at: TimeSpan,
    keypair: KeyStore,
}

/// The model of a [`DocSigner`]: `keys` maps an identity to the PKCS#8
/// document of the key pair held under it.
pub ghost struct DocSignerView {
    pub signer_id: Seq<char>,
    pub expires_at: TimeSpan,
    pub keys: Map<Seq<char>, Seq<u8>>,
}

impl View for DocSigner {
    type V = DocSignerView;

    closed spec fn view(&self) -> DocSignerView {
        DocSignerView {
            signer_id: self.signer_id@,
            expires_at: self.expires_at,
            keys: self.keypair@,
        }
    }
}

/// The point in time at which a signature made at `now` expires.
pub open spec fn expiration_of(now: Timestamp, expires_at: TimeSpan) -> Timestamp
    recommends
        now.can_add(expires_at),
{
    Timestamp { nanos: (now.nanos + expires_at.total_nanos()) as i128 }
}

/// The signed document that `signer` makes of `doc` at `now` with the key
/// pair whose PKCS#8 document is `pkcs8`.
pub open spec fn signed_document(
    signer: DocSignerView,
    doc: InputDocumentView,
    pkcs8: Seq<u8>,
    now: Timestamp,
) -> SignedDocumentView {
    SignedDocumentView {
        document_id: doc.id,
        content: doc.content,
        signature: ed25519_signature(pkcs8, doc.content),
        timestamp: now,
        signer_id: signer.signer_id,
        metadata: DocumentMetadataView {
            content_type: content_type_label(),
            hash_algorithm: hash_algorithm_label(),
            signature_algorithm: signature_algorithm_label(),
            expiration: expiration_of(now, signer.expires_at),
        },
    }
}

/// The signer named `signer_id` that has not signed yet: it holds no key.
pub open spec fn fresh_signer(signer_id: Seq<char>, expires_at: TimeSpan) -> DocSignerView {
    DocSignerView { signer_id, expires_at, keys: Map::empty() }
}

/// The signer after it has taken the key pair with document `pkcs8` as its
/// own: the key pair stands under the signer's identity, in place of any
/// held there before.
pub open spec fn with_key(signer: DocSignerView, pkcs8: Seq<u8>) -> DocSignerView {
    DocSignerView { keys: signer.keys.insert(signer.signer_id, pkcs8), ..signer }
}

/// What one signing does: `before` signs `doc` at `now` with a fresh key
/// pair, giving `signed` and becoming `after`.
///
/// The signature is the provider's for the content under that key pair, is
/// 64 bytes long, and the provider accepts it under the key pair's public
/// key. The expiration lies within the representable range.
pub open spec fn signing(
    before: DocSignerView,
    doc: InputDocumentView,
    pkcs8: Seq<u8>,
    now: Timestamp,
    signed: SignedDocumentView,
    after: DocSignerView,
) -> bool {
    &&& is_key_document(pkcs8)
    &&& now.can_add(before.expires_at)
    &&& signed == signed_document(before, doc, pkcs8, now)
    &&& signed.signature.len() == 64
    &&& ed25519_accepts(public_key_of(pkcs8), doc.content, signed.signature)
    &&& after == with_key(before, pkcs8)
}

/// The outcome of checking `doc` at `now`: expiry is judged first, then
/// whether the signer holds a key under its own identity, then the
/// signature against the content under that key.
pub open spec fn verification(signer: DocSignerView, doc: SignedDocumentView, now: Timestamp) -> Result<
    bool,
    VerifyError,
> {
    if now.nanos > doc.metadata.expiration.nanos {
        Err(VerifyError::Expired)
    } else if !signer.keys.contains_key(signer.signer_id) {
        Err(VerifyError::UnknownKey)
    } else {
        Ok(
            ed25519_accepts(
                public_key_of(signer.keys[signer.signer_id]),
                doc.content,
                doc.signature,
            ),
        )
    }
}

impl DocSigner {
    /// A signer named `signer_id` whose signatures stay valid for
    /// `expires_at`. It holds no key yet.
    pub fn new(signer_id: &str, expires_at: TimeSpan) -> (signer: DocSigner)
        ensures
            signer@ == fresh_signer(signer_id@, expires_at),
    {
        DocSigner { signer_id: signer_id.to_owned(), expires_at, keypair: KeyStore::new() }
    }

    /// Signs `input_doc` now, with a key pair issued for this signature.
    ///
    /// Which key pair is issued and what the clock reads are not known
    /// beforehand: on success there are a key pair and a time for which this
    /// was one signing; on failure the signer is unchanged.
    pub fn sign(&mut self, input_doc: InputDocument) -> (outcome: Result<SignedDocument, SignError>)
        ensures
            match outcome {
                Ok(signed) => exists|pkcs8: Seq<u8>, now: Timestamp| #[trigger]
                    signing(old(self)@, input_doc@, pkcs8, now, signed@, final(self)@),
                Err(_) => final(self)@ == old(self)@,
            },
    {
        let issued = Ed25519KeyPairGenerator::generate();
        let now = Timestamp::now();
        proof {
            lemma_clock_range_can_add(now, self.expires_at);
        }
        let ghost before = self@;
        let ghost doc = input_doc@;
        let ghost pkcs8 = issued->Ok_0@;
        let outcome = self.sign_with(input_doc, issued, now);
        proof {
            if outcome is Ok {
                assert(signing(before, doc, pkcs8, now, outcome->Ok_0@, self@));
            }
        }
        outcome
    }

    /// Signs `input_doc` at the time `now`, given the outcome of issuing a
    /// key pair for the signature.
    ///
    /// With a key pair, the signer signs the content with it and keeps it
    /// under its own identity; without one, the failure is passed on and
    /// the signer is unchanged.
    pub fn sign_with(
        &mut self,
        input_doc: InputDocument,
        issued: Result<Ed25519KeyPairGenerator, KeyGenError>,
        now: Timestamp,
    ) -> (outcome: Result<SignedDocument, SignError>)
        requires
            now.can_add(old(self)@.expires_at),
        ensures
            match issued {
                Ok(key_pair) => outcome matches Ok(signed) && signing(
                    old(self)@,
                    input_doc@,
                    key_pair@,
                    now,
                    signed@,
                    final(self)@,
                ),
                Err(failure) => outcome matches Err(SignError::KeyGeneration(e)) && e == failure
                    && final(self)@ == old(self)@,
            },
    {
        match issued {
            Err(failure) => Err(SignError::KeyGeneration(failure)),
            Ok(key_pair) => {
                let signature = key_pair.sign(input_doc.content.as_slice());
                self.keypair.insert(self.signer_id.clone(), key_pair);
                Ok(
                    SignedDocument {
                        document_id: input_doc.id,
                        content: input_doc.content,
                        signature,
                        timestamp: now,
                        signer_id: self.signer_id.clone(),
                        metadata: DocumentMetadata::expiring_at(now.plus(self.expires_at)),
                    },
                )
            },
        }
    }

    /// Checks `signed_doc` now, against the key this signer holds.
    ///
    /// What the clock reads is not known beforehand: the outcome is that of
    /// checking at some time.
    pub fn verify(&self, signed_doc: SignedDocument) -> (outcome: Result<bool, VerifyError>)
        ensures
            exists|now: Timestamp| outcome == #[trigger] verification(self@, signed_doc@, now),
    {
        let now = Timestamp::now();
        let outcome = self.verify_at(signed_doc, now);
        assert(outcome == verification(self@, signed_doc@, now));
        outcome
    }

    /// Checks `signed_doc` at the time `now`, against the key this signer
    /// holds under its own identity.
    ///
    /// An expired document is refused whatever its signature; a signature
    /// that does not match is the answer `false`.
    pub fn verify_at(&self, signed_doc: SignedDocument, now: Timestamp) -> (outcome: Result<
        bool,
        VerifyError,
    >)
        ensures
            outcome == verification(self@, signed_doc@, now),
    {
        if now.is_after(signed_doc.metadata.expiration) {
            return Err(VerifyError::Expired);
        }
        match self.keypair.get(&self.signer_id) {
            None => Err(VerifyError::UnknownKey),
            Some(key_pair) => Ok(
                key_pair.verify(signed_doc.content.as_slice(), signed_doc.signature.as_slice()),
            ),
        }
    }
}

} // verus!
