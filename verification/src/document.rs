//! Documents before and after signing, and their mathematical views.

use crate::time::Timestamp;
use vstd::prelude::*;

verus! {

/// A document handed in for signing: an identifier and an opaque payload.
pub struct InputDocument {
    pub id: String,
    pub content: Vec<u8>,
}

/// The model of an [`InputDocument`].
pub ghost struct InputDocumentView {
    pub id: Seq<char>,
    pub content: Seq<u8>,
}

impl View for InputDocument {
    type V = InputDocumentView;

    open spec fn view(&self) -> InputDocumentView {
        InputDocumentView { id: self.id@, content: self.content@ }
    }
}

/// How a signature was produced and until when it counts as valid.
#[derive(Debug, Clone)]
pub struct DocumentMetadata {
    pub content_type: String,
    pub hash_algorithm: String,
    pub signature_algorithm: String,
    pub expiration: Timestamp,
}

/// The model of a [`DocumentMetadata`].
pub ghost struct DocumentMetadataView {
    pub content_type: Seq<char>,
    pub hash_algorithm: Seq<char>,
    pub signature_algorithm: Seq<char>,
    pub expiration: Timestamp,
}

impl View for DocumentMetadata {
    type V = DocumentMetadataView;

    open spec fn view(&self) -> DocumentMetadataView {
        DocumentMetadataView {
            content_type: self.content_type@,
            hash_algorithm: self.hash_algorithm@,
            signature_algorithm: self.signature_algorithm@,
            expiration: self.expiration,
        }
    }
}

/// A document together with its signature and the facts of its signing.
#[derive(Debug, Clone)]
pub struct SignedDocument {
    pub document_id: String,
    pub content: Vec<u8>,
    pub signature: Vec<u8>,
    pub timestamp: Timestamp,
    pub signer_id: String,
    pub metadata: DocumentMetadata,
}

/// The model of a [`SignedDocument`].
pub ghost struct SignedDocumentView {
    pub document_id: Seq<char>,
    pub content: Seq<u8>,
    pub signature: Seq<u8>,
    pub timestamp: Timestamp,
    pub signer_id: Seq<char>,
    pub metadata: DocumentMetadataView,
}

impl View for SignedDocument {
    type V = SignedDocumentView;

    open spec fn view(&self) -> SignedDocumentView {
        SignedDocumentView {
            document_id: self.document_id@,
            content: self.content@,
            signature: self.signature@,
            timestamp: self.timestamp,
            signer_id: self.signer_id@,
            metadata: self.metadata@,
        }
    }
}

/// The content type written into every signed document.
pub open spec fn content_type_label() -> Seq<char> {
    "application/octet-stream"@
}

/// The hash algorithm written into every signed document.
pub open spec fn hash_algorithm_label() -> Seq<char> {
    "SHA256"@
}

/// The signature algorithm written into every signed document.
pub open spec fn signature_algorithm_label() -> Seq<char> {
    "Ed25519"@
}

impl DocumentMetadata {
    /// The metadata of a signature that expires at `expiration`.
    pub fn expiring_at(expiration: Timestamp) -> (metadata: DocumentMetadata)
        ensures
            metadata@ == (DocumentMetadataView {
                content_type: content_type_label(),
                hash_algorithm: hash_algorithm_label(),
                signature_algorithm: signature_algorithm_label(),
                expiration,
            }),
    {
        DocumentMetadata {
            content_type: "application/octet-stream".to_owned(),
            hash_algorithm: "SHA256".to_owned(),
            signature_algorithm: "Ed25519".to_owned(),
            expiration,
        }
    }
}

} // verus!
