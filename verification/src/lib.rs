//! Reconstruction of a transaction's cryptographic authorization section
//! from a compact, wire-efficient form.
//!
//! The compact form carries raw public-key and signature bytes together
//! with small integer indices that name sections of a reference
//! transaction. [`construct_signature_section`] deserializes the raw bytes,
//! builds a [`tx::CompressedAuthorization`], and expands it by resolving
//! each index to the content hash of the section it names, yielding a full
//! [`tx::Section`] ready to be attached to the transaction by the caller.

pub mod key;
pub mod signature;
pub mod tx;

pub use signature::construct_signature_section;
pub use signature::SignatureMsg;
