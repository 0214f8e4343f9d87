//! Rebuilding a transaction's authorization section from its compact form.
//!
//! The one operation here takes raw public-key and signature bytes plus a
//! list of logical section indices, deserializes the raw bytes, builds the
//! compressed authorization record, and expands it against a reference
//! transaction into a full authorization section whose targets are the
//! content hashes those indices name.

use vstd::prelude::*;

use crate::key::{valid_public_key_bytes, valid_signature_bytes, PublicKey, Signature};
use crate::tx::{
    indices_in_range, spec_expand, AuthorizationModel, CompressedAuthorization,
    CompressedAuthorizationModel, ExpandError, Section, SectionModel, Signer, SignerModel,
    Transaction,
};
use std::collections::BTreeMap;

verus! {

broadcast use vstd::laws_cmp::group_laws_cmp, vstd::std_specs::btree::group_btree_axioms;

/// Compact wire form of the inputs needed to rebuild signature sections:
/// raw key and signature bytes plus the section indices each signature
/// covers, for both the raw and the wrapper layer of a transaction.
pub struct SignatureMsg {
    pub pubkey: Vec<u8>,
    pub raw_indices: Vec<u8>,
    pub raw_signature: Vec<u8>,
    pub wrapper_indices: Vec<u8>,
    pub wrapper_signature: Vec<u8>,
}

/// What constructing a signature section from the given inputs yields.
///
/// Malformed key or signature bytes are rejected before any transaction
/// lookup; otherwise the compressed record carrying the one key as signer
/// and the one signature at position 0 is expanded against the transaction's
/// section hashes. No partial result exists on any error.
pub open spec fn spec_construct(
    pubkey: Seq<u8>,
    indices: Seq<u8>,
    signature: Seq<u8>,
    sections: Seq<Seq<u8>>,
) -> Result<SectionModel, ExpandError> {
    if !(valid_public_key_bytes(pubkey) && valid_signature_bytes(signature)) {
        Err(ExpandError::Deserialization)
    } else {
        match spec_expand(
            CompressedAuthorizationModel {
                targets: indices,
                signer: SignerModel::PubKeys(seq![pubkey]),
                signatures: map![0u8 => signature],
            },
            sections,
        ) {
            Ok(a) => Ok(SectionModel::Authorization(a)),
            Err(e) => Err(e),
        }
    }
}

/// The mathematical value of a construction's outcome.
pub open spec fn construction_model(r: Result<Section, ExpandError>) -> Result<
    SectionModel,
    ExpandError,
> {
    match r {
        Ok(s) => Ok(s@),
        Err(e) => Err(e),
    }
}

/// Reconstructs an authorization section, using the provided indices to
/// retrieve content hashes from `tx`.
///
/// The raw bytes are deserialized into one public key and one signature, a
/// compressed authorization is built from them and the indices, and the
/// record is expanded against `tx`. Malformed bytes fail with
/// [`ExpandError::Deserialization`] before any lookup; an index that names
/// no section fails with [`ExpandError::IndexOutOfRange`]. On success the
/// returned section carries the resolved hashes, the key as its only
/// signer, and the signature at position 0.
pub fn construct_signature_section(
    pubkey: &[u8],
    sec_indices: &[u8],
    signature: &[u8],
    tx: &Transaction,
) -> (r: Result<Section, ExpandError>)
    ensures
        construction_model(r) == spec_construct(pubkey@, sec_indices@, signature@, tx@),
{
    let sig = match Signature::try_from_slice(signature) {
        Some(s) => s,
        None => {
            return Err(ExpandError::Deserialization);
        },
    };
    let pk = match PublicKey::try_from_slice(pubkey) {
        Some(k) => k,
        None => {
            return Err(ExpandError::Deserialization);
        },
    };
    let ghost sig_bytes = sig@;
    let ghost pk_bytes = pk@;

    let mut signatures: BTreeMap<u8, Signature> = BTreeMap::new();
    signatures.insert(0, sig);
    let signer = Signer::PubKeys(vec![pk]);
    let compressed = CompressedAuthorization {
        targets: vstd::slice::slice_to_vec(sec_indices),
        signer,
        signatures,
    };
    proof {
        assert(compressed@.signatures =~= map![0u8 => signature@]);
        assert(seq![pk].map_values(|k: PublicKey| k@) =~= seq![pubkey@]);
        assert(compressed@ =~= CompressedAuthorizationModel {
            targets: sec_indices@,
            signer: SignerModel::PubKeys(seq![pubkey@]),
            signatures: map![0u8 => signature@],
        });
    }
    match compressed.expand(tx) {
        Ok(a) => Ok(Section::Authorization(a)),
        Err(e) => Err(e),
    }
}

/// Round trip: whenever every target index of a compressed authorization
/// resolves, expansion succeeds and yields an authorization whose signer and
/// signature map are value-equal to those the compressed record was built
/// from.
pub proof fn lemma_expand_preserves_signer_and_signatures(
    ca: CompressedAuthorizationModel,
    sections: Seq<Seq<u8>>,
)
    requires
        indices_in_range(ca.targets, sections.len() as int),
    ensures
        spec_expand(ca, sections) matches Ok(a) && a.signer == ca.signer && a.signatures
            == ca.signatures,
{
}

/// Determinism: two constructions from identical inputs have identical
/// outcomes.
pub proof fn lemma_construction_deterministic(
    pubkey1: Seq<u8>,
    indices1: Seq<u8>,
    signature1: Seq<u8>,
    sections1: Seq<Seq<u8>>,
    pubkey2: Seq<u8>,
    indices2: Seq<u8>,
    signature2: Seq<u8>,
    sections2: Seq<Seq<u8>>,
)
    requires
        pubkey1 == pubkey2,
        indices1 == indices2,
        signature1 == signature2,
        sections1 == sections2,
    ensures
        spec_construct(pubkey1, indices1, signature1, sections1) == spec_construct(
            pubkey2,
            indices2,
            signature2,
            sections2,
        ),
{
}

/// Index fidelity: against a transaction with `sections.len()` sections, a
/// construction targeting the single in-range index `i` yields an
/// authorization whose one resolved target is the content hash of section
/// `i`.
pub proof fn lemma_index_fidelity(
    pubkey: Seq<u8>,
    signature: Seq<u8>,
    sections: Seq<Seq<u8>>,
    i: u8,
)
    requires
        valid_public_key_bytes(pubkey),
        valid_signature_bytes(signature),
        (i as int) < sections.len(),
    ensures
        spec_construct(pubkey, seq![i], signature, sections) matches Ok(s) && s
            == SectionModel::Authorization(
            AuthorizationModel {
                targets: seq![sections[i as int]],
                signer: SignerModel::PubKeys(seq![pubkey]),
                signatures: map![0u8 => signature],
            },
        ),
{
    assert(indices_in_range(seq![i], sections.len() as int)) by {
        assert(seq![i][0] == i);
    }
    assert(crate::tx::resolve_targets(seq![i], sections) =~= seq![sections[i as int]]);
}

/// Bounds checking: if any target index fails to resolve, the construction
/// fails with [`ExpandError::IndexOutOfRange`] and produces no section.
pub proof fn lemma_out_of_range_index_fails(
    pubkey: Seq<u8>,
    indices: Seq<u8>,
    signature: Seq<u8>,
    sections: Seq<Seq<u8>>,
    k: int,
)
    requires
        valid_public_key_bytes(pubkey),
        valid_signature_bytes(signature),
        0 <= k < indices.len(),
        (indices[k] as int) >= sections.len(),
    ensures
        spec_construct(pubkey, indices, signature, sections) == Err::<
            SectionModel,
            ExpandError,
        >(ExpandError::IndexOutOfRange),
{
    assert(!indices_in_range(indices, sections.len() as int));
}

/// Malformed key rejection: bytes that are not a canonical public-key
/// encoding fail with [`ExpandError::Deserialization`], whatever the
/// indices, the signature, or the transaction.
pub proof fn lemma_malformed_key_rejected(
    pubkey: Seq<u8>,
    indices: Seq<u8>,
    signature: Seq<u8>,
    sections: Seq<Seq<u8>>,
)
    requires
        !valid_public_key_bytes(pubkey),
    ensures
        spec_construct(pubkey, indices, signature, sections) == Err::<
            SectionModel,
            ExpandError,
        >(ExpandError::Deserialization),
{
}

/// Malformed signature rejection: bytes that are not a canonical signature
/// encoding fail with [`ExpandError::Deserialization`], whatever the
/// indices, the key, or the transaction.
pub proof fn lemma_malformed_signature_rejected(
    pubkey: Seq<u8>,
    indices: Seq<u8>,
    signature: Seq<u8>,
    sections: Seq<Seq<u8>>,
)
    requires
        !valid_signature_bytes(signature),
    ensures
        spec_construct(pubkey, indices, signature, sections) == Err::<
            SectionModel,
            ExpandError,
        >(ExpandError::Deserialization),
{
}

} // verus!
