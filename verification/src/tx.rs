//! The transaction-side data model: section content hashes, the transaction
//! container that resolves logical section indices to hashes, signers, and
//! the compressed and expanded authorization records.
//!
//! A transaction owns an ordered list of sections. Each stored section is
//! summarised here by its content hash — the digest of the section's
//! canonical binary encoding, computed by the hashing collaborator when the
//! section is stored. That per-index hash is the only view of a transaction
//! that authorization expansion reads.

use vstd::prelude::*;

use crate::key::{PublicKey, Signature};
use std::collections::BTreeMap;

verus! {

broadcast use vstd::laws_cmp::group_laws_cmp, vstd::std_specs::btree::group_btree_axioms;

/// Why an expansion was refused.
#[derive(Clone, Copy, Debug, PartialEq, Eq, Structural)]
pub enum ExpandError {
    /// Raw bytes did not decode into a valid public key or signature.
    Deserialization,
    /// A target index named no section of the reference transaction.
    IndexOutOfRange,
}

/// The content hash of one transaction section.
#[derive(Clone, Debug, PartialEq, Eq)]
pub struct SectionHash(pub Vec<u8>);

impl View for SectionHash {
    type V = Seq<u8>;

    open spec fn view(&self) -> Seq<u8> {
        self.0@
    }
}

impl SectionHash {
    /// Returns a hash holding the same bytes.
    pub fn duplicate(&self) -> (r: SectionHash)
        ensures
            r@ == self@,
    {
        SectionHash(vstd::slice::slice_to_vec(self.0.as_slice()))
    }
}

/// The identity that authorizes a set of targets.
///
/// Only the public-key variant is built by this crate; the address variant
/// keeps the sum type open for the other signer forms a transaction may
/// carry.
#[derive(Clone, Debug, PartialEq, Eq)]
pub enum Signer {
    /// A signer named by its address bytes.
    Address(Vec<u8>),
    /// A signer named by an explicit list of public keys, each at a stable
    /// position starting at 0.
    PubKeys(Vec<PublicKey>),
}

/// Mathematical value of a [`Signer`].
#[verifier::ext_equal]
pub enum SignerModel {
    Address(Seq<u8>),
    PubKeys(Seq<Seq<u8>>),
}

impl View for Signer {
    type V = SignerModel;

    open spec fn view(&self) -> SignerModel {
        match self {
            Signer::Address(a) => SignerModel::Address(a@),
            Signer::PubKeys(ks) => SignerModel::PubKeys(ks@.map_values(|k: PublicKey| k@)),
        }
    }
}

/// Mathematical value of an authorization: target hashes, signer, and the
/// signature map, each taken down to byte sequences.
#[verifier::ext_equal]
pub struct AuthorizationModel {
    pub targets: Seq<Seq<u8>>,
    pub signer: SignerModel,
    pub signatures: Map<u8, Seq<u8>>,
}

/// The expanded authorization record: the signer and signature map together
/// with the full content hashes of the sections they cover.
#[derive(Clone, Debug, PartialEq, Eq)]
pub struct Authorization {
    /// Content hashes of the targeted sections.
    pub targets: Vec<SectionHash>,
    /// The authorizing identity.
    pub signer: Signer,
    /// Signatures by signer position index.
    pub signatures: BTreeMap<u8, Signature>,
}

impl View for Authorization {
    type V = AuthorizationModel;

    open spec fn view(&self) -> AuthorizationModel {
        AuthorizationModel {
            targets: self.targets@.map_values(|h: SectionHash| h@),
            signer: self.signer@,
            signatures: self.signatures@.map_values(|s: Signature| s@),
        }
    }
}

/// Mathematical value of a [`CompressedAuthorization`].
#[verifier::ext_equal]
pub struct CompressedAuthorizationModel {
    pub targets: Seq<u8>,
    pub signer: SignerModel,
    pub signatures: Map<u8, Seq<u8>>,
}

/// The compact authorization record: small integer section indices in place
/// of full content hashes. It is meaningful only relative to the section
/// ordering of one reference transaction.
#[derive(Clone, Debug, PartialEq, Eq)]
pub struct CompressedAuthorization {
    /// Logical indices of the targeted sections.
    pub targets: Vec<u8>,
    /// The authorizing identity.
    pub signer: Signer,
    /// Signatures by signer position index.
    pub signatures: BTreeMap<u8, Signature>,
}

impl View for CompressedAuthorization {
    type V = CompressedAuthorizationModel;

    open spec fn view(&self) -> CompressedAuthorizationModel {
        CompressedAuthorizationModel {
            targets: self.targets@,
            signer: self.signer@,
            signatures: self.signatures@.map_values(|s: Signature| s@),
        }
    }
}

/// An addressable fragment of a transaction's payload.
///
/// Expansion only ever produces the authorization variant; the data variant
/// keeps the sum type open for the plain payload sections a transaction
/// holds besides its authorizations.
#[derive(Clone, Debug, PartialEq, Eq)]
pub enum Section {
    /// An opaque data payload.
    Data(Vec<u8>),
    /// An authorization over section content hashes.
    Authorization(Authorization),
}

/// Mathematical value of a [`Section`].
#[verifier::ext_equal]
pub enum SectionModel {
    Data(Seq<u8>),
    Authorization(AuthorizationModel),
}

impl View for Section {
    type V = SectionModel;

    open spec fn view(&self) -> SectionModel {
        match self {
            Section::Data(d) => SectionModel::Data(d@),
            Section::Authorization(a) => SectionModel::Authorization(a@),
        }
    }
}

/// An ordered transaction container, viewed through the content hash of each
/// of its sections.
///
/// The mapping from a logical section index to a concrete hash is owned by
/// this type: [`Transaction::section_hash`] is the lookup capability that
/// expansion uses, and it fails rather than answer for an index that names
/// no section.
#[derive(Clone, Debug, PartialEq, Eq)]
pub struct Transaction {
    section_hashes: Vec<SectionHash>,
}

impl View for Transaction {
    type V = Seq<Seq<u8>>;

    closed spec fn view(&self) -> Seq<Seq<u8>> {
        self.section_hashes@.map_values(|h: SectionHash| h@)
    }
}

impl Transaction {
    /// Builds a transaction whose sections have the given content hashes, in
    /// order of their logical indices.
    pub fn new(section_hashes: Vec<SectionHash>) -> (r: Transaction)
        ensures
            r@ == section_hashes@.map_values(|h: SectionHash| h@),
    {
        Transaction { section_hashes }
    }

    /// The number of sections the transaction holds.
    pub fn section_count(&self) -> (n: usize)
        ensures
            n == self@.len(),
    {
        self.section_hashes.len()
    }

    /// Resolves a logical section index to that section's content hash.
    /// Returns `None` exactly when the index names no section.
    pub fn section_hash(&self, index: u8) -> (r: Option<&SectionHash>)
        ensures
            match r {
                Some(h) => (index as int) < self@.len() && h@ == self@[index as int],
                None => (index as int) >= self@.len(),
            },
    {
        if (index as usize) < self.section_hashes.len() {
            Some(&self.section_hashes[index as usize])
        } else {
            None
        }
    }
}

/// Whether every index in `indices` resolves to a section of a transaction
/// with `n` sections.
pub open spec fn indices_in_range(indices: Seq<u8>, n: int) -> bool {
    forall|k: int| 0 <= k < indices.len() ==> (indices[k] as int) < n
}

/// The hashes that `indices` resolve to, in order, against the given section
/// hashes.
pub open spec fn resolve_targets(indices: Seq<u8>, sections: Seq<Seq<u8>>) -> Seq<Seq<u8>>
    recommends
        indices_in_range(indices, sections.len() as int),
{
    indices.map_values(|i: u8| sections[i as int])
}

/// What expanding a compressed authorization against a transaction with the
/// given section hashes yields: the record with every index resolved to its
/// hash, or an error if any index resolves to nothing. Signer and signature
/// map pass through unchanged, and no partial result exists.
pub open spec fn spec_expand(ca: CompressedAuthorizationModel, sections: Seq<Seq<u8>>) -> Result<
    AuthorizationModel,
    ExpandError,
> {
    if indices_in_range(ca.targets, sections.len() as int) {
        Ok(
            AuthorizationModel {
                targets: resolve_targets(ca.targets, sections),
                signer: ca.signer,
                signatures: ca.signatures,
            },
        )
    } else {
        Err(ExpandError::IndexOutOfRange)
    }
}

/// The mathematical value of an expansion's outcome.
pub open spec fn expansion_model(r: Result<Authorization, ExpandError>) -> Result<
    AuthorizationModel,
    ExpandError,
> {
    match r {
        Ok(a) => Ok(a@),
        Err(e) => Err(e),
    }
}

impl CompressedAuthorization {
    /// Expands this record against `tx`: every target index is resolved to
    /// the content hash of the section it names, and the signer and
    /// signature map are carried over unchanged. Fails with
    /// [`ExpandError::IndexOutOfRange`], and produces nothing, as soon as
    /// any index names no section.
    pub fn expand(self, tx: &Transaction) -> (r: Result<Authorization, ExpandError>)
        ensures
            expansion_model(r) == spec_expand(self@, tx@),
    {
        let CompressedAuthorization { targets, signer, signatures } = self;
        let mut resolved: Vec<SectionHash> = Vec::new();
        let n = targets.len();
        let mut k: usize = 0;
        while k < n
            invariant
                n == targets.len(),
                k <= n,
                targets == self.targets,
                resolved@.len() == k,
                forall|j: int| 0 <= j < k ==> (targets@[j] as int) < tx@.len(),
                forall|j: int| 0 <= j < k ==> resolved@[j]@ == tx@[targets@[j] as int],
            decreases n - k,
        {
            let idx = targets[k];
            match tx.section_hash(idx) {
                Some(h) => {
                    resolved.push(h.duplicate());
                },
                None => {
                    assert(!indices_in_range(self@.targets, tx@.len() as int));
                    return Err(ExpandError::IndexOutOfRange);
                },
            }
            k = k + 1;
        }
        assert(resolved@.map_values(|h: SectionHash| h@) =~= resolve_targets(
            self@.targets,
            tx@,
        ));
        Ok(Authorization { targets: resolved, signer, signatures })
    }
}

} // verus!
