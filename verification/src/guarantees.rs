//! What holds across signing and verification, proved from the contracts
//! of [`DocSigner`](crate::service::DocSigner).
//!
//! Each statement is over the models that those contracts use: a signer
//! before and after a signing as `signing` relates them, and the outcome of
//! a check as `verification` gives it.

use crate::document::InputDocumentView;
use crate::document::SignedDocumentView;
use crate::ed25519::ed25519_accepts;
use crate::error::VerifyError;
use crate::key_pair::public_key_of;
use crate::service::fresh_signer;
use crate::service::signing;
use crate::service::verification;
use crate::service::DocSignerView;
use crate::time::TimeSpan;
use crate::time::Timestamp;
use vstd::prelude::*;

verus! {

/// A document that a signer has just signed verifies as `true` on that
/// signer, at any time up to its expiration.
pub proof fn lemma_signed_document_verifies(
    before: DocSignerView,
    doc: InputDocumentView,
    pkcs8: Seq<u8>,
    now: Timestamp,
    signed: SignedDocumentView,
    after: DocSignerView,
    later: Timestamp,
)
    requires
        signing(before, doc, pkcs8, now, signed, after),
        later.nanos <= signed.metadata.expiration.nanos,
    ensures
        verification(after, signed, later) == Ok::<bool, VerifyError>(true),
{
}

/// Changing the content of a signed document never turns its check into an
/// error: the signer answers with the provider's verdict on the changed
/// content under the key it signed with.
pub proof fn lemma_altered_content_is_judged(
    before: DocSignerView,
    doc: InputDocumentView,
    pkcs8: Seq<u8>,
    now: Timestamp,
    signed: SignedDocumentView,
    after: DocSignerView,
    altered: Seq<u8>,
    later: Timestamp,
)
    requires
        signing(before, doc, pkcs8, now, signed, after),
        later.nanos <= signed.metadata.expiration.nanos,
    ensures
        verification(after, SignedDocumentView { content: altered, ..signed }, later) == Ok::<
            bool,
            VerifyError,
        >(ed25519_accepts(public_key_of(pkcs8), altered, signed.signature)),
{
}

/// Signing again replaces the signer's key: afterwards an earlier document
/// is checked against the key of the later signing, not against the key
/// that signed it. The later document still verifies.
pub proof fn lemma_signing_again_replaces_key(
    start: DocSignerView,
    first_doc: InputDocumentView,
    first_pkcs8: Seq<u8>,
    first_now: Timestamp,
    first_signed: SignedDocumentView,
    between: DocSignerView,
    second_doc: InputDocumentView,
    second_pkcs8: Seq<u8>,
    second_now: Timestamp,
    second_signed: SignedDocumentView,
    end: DocSignerView,
    later: Timestamp,
)
    requires
        signing(start, first_doc, first_pkcs8, first_now, first_signed, between),
        signing(between, second_doc, second_pkcs8, second_now, second_signed, end),
        later.nanos <= first_signed.metadata.expiration.nanos,
    ensures
        end.keys[end.signer_id] == second_pkcs8,
        end.keys.remove(end.signer_id) == start.keys.remove(start.signer_id),
        verification(end, first_signed, later) == Ok::<bool, VerifyError>(
            ed25519_accepts(
                public_key_of(second_pkcs8),
                first_doc.content,
                first_signed.signature,
            ),
        ),
        later.nanos <= second_signed.metadata.expiration.nanos ==> verification(
            end,
            second_signed,
            later,
        ) == Ok::<bool, VerifyError>(true),
{
    assert(end.keys.remove(end.signer_id) =~= start.keys.remove(start.signer_id));
}

/// A document checked after its expiration is refused as expired, whatever
/// its signature and whatever key the signer holds.
pub proof fn lemma_expired_is_refused(
    signer: DocSignerView,
    signed: SignedDocumentView,
    now: Timestamp,
)
    requires
        now.nanos > signed.metadata.expiration.nanos,
    ensures
        verification(signer, signed, now) == Err::<bool, VerifyError>(VerifyError::Expired),
{
}

/// A signer that has not signed yet knows no key: every document that has
/// not expired is refused for want of one.
pub proof fn lemma_fresh_signer_knows_no_key(
    signer_id: Seq<char>,
    expires_at: TimeSpan,
    signed: SignedDocumentView,
    now: Timestamp,
)
    requires
        now.nanos <= signed.metadata.expiration.nanos,
    ensures
        verification(fresh_signer(signer_id, expires_at), signed, now) == Err::<
            bool,
            VerifyError,
        >(VerifyError::UnknownKey),
{
}

/// A signed document carries what was handed in, the time of signing, and
/// an expiration that lies the signer's validity span after that time. Its
/// signature is 64 bytes long.
pub proof fn lemma_signed_document_records_signing(
    before: DocSignerView,
    doc: InputDocumentView,
    pkcs8: Seq<u8>,
    now: Timestamp,
    signed: SignedDocumentView,
    after: DocSignerView,
)
    requires
        signing(before, doc, pkcs8, now, signed, after),
    ensures
        signed.document_id == doc.id,
        signed.content == doc.content,
        signed.signer_id == before.signer_id,
        signed.timestamp == now,
        signed.metadata.expiration.nanos == signed.timestamp.nanos
            + before.expires_at.total_nanos(),
        signed.signature.len() == 64,
{
}

/// Signing changes nothing about a signer but the key under its own
/// identity.
pub proof fn lemma_signing_keeps_identity(
    before: DocSignerView,
    doc: InputDocumentView,
    pkcs8: Seq<u8>,
    now: Timestamp,
    signed: SignedDocumentView,
    after: DocSignerView,
)
    requires
        signing(before, doc, pkcs8, now, signed, after),
    ensures
        after.signer_id == before.signer_id,
        after.expires_at == before.expires_at,
        after.keys.dom() == before.keys.dom().insert(before.signer_id),
        after.keys[before.signer_id] == pkcs8,
        forall|id: Seq<char>|
            id != before.signer_id && before.keys.contains_key(id) ==> after.keys[id]
                == before.keys[id],
{
    assert(after.keys.dom() =~= before.keys.dom().insert(before.signer_id));
}

} // verus!
