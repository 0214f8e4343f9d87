//! Structured public-key and signature values, deserialized from their
//! canonical byte encodings.
//!
//! A canonically encoded key or signature is a scheme tag followed by a
//! payload of the length that the scheme fixes. The elliptic-curve
//! mathematics behind these values is an external concern: this module only
//! checks the shape of the encoding and carries the bytes in a typed form.

use vstd::prelude::*;

verus! {

/// Scheme tag that opens a canonically encoded Ed25519 value.
pub const ED25519_TAG: u8 = 0;

/// Scheme tag that opens a canonically encoded Secp256k1 value.
pub const SECP256K1_TAG: u8 = 1;

/// Payload length of an Ed25519 public key.
pub const ED25519_KEY_LEN: usize = 32;

/// Payload length of a compressed Secp256k1 public key.
pub const SECP256K1_KEY_LEN: usize = 33;

/// Payload length of an Ed25519 signature.
pub const ED25519_SIG_LEN: usize = 64;

/// Payload length of a recoverable Secp256k1 signature.
pub const SECP256K1_SIG_LEN: usize = 65;

/// Whether `b` is the canonical encoding of exactly one public key:
/// a scheme tag followed by a payload of that scheme's key length.
pub open spec fn valid_public_key_bytes(b: Seq<u8>) -> bool {
    ||| (b.len() == 1 + ED25519_KEY_LEN && b[0] == ED25519_TAG)
    ||| (b.len() == 1 + SECP256K1_KEY_LEN && b[0] == SECP256K1_TAG)
}

/// Whether `b` is the canonical encoding of exactly one signature:
/// a scheme tag followed by a payload of that scheme's signature length.
pub open spec fn valid_signature_bytes(b: Seq<u8>) -> bool {
    ||| (b.len() == 1 + ED25519_SIG_LEN && b[0] == ED25519_TAG)
    ||| (b.len() == 1 + SECP256K1_SIG_LEN && b[0] == SECP256K1_TAG)
}

/// A public key, held in its canonical byte encoding.
///
/// Values of this type can only be made through [`PublicKey::try_from_slice`],
/// so every value satisfies [`PublicKey::wf`].
#[derive(Clone, Debug, PartialEq, Eq)]
pub struct PublicKey {
    bytes: Vec<u8>,
}

impl View for PublicKey {
    type V = Seq<u8>;

    closed spec fn view(&self) -> Seq<u8> {
        self.bytes@
    }
}

impl PublicKey {
    /// A well-formed public key holds a canonical encoding.
    pub open spec fn wf(&self) -> bool {
        valid_public_key_bytes(self@)
    }

    /// Deserializes a public key from its canonical byte encoding.
    /// Returns `None` exactly on malformed input.
    pub fn try_from_slice(bytes: &[u8]) -> (r: Option<PublicKey>)
        ensures
            r is Some <==> valid_public_key_bytes(bytes@),
            r matches Some(pk) ==> pk@ == bytes@ && pk.wf(),
    {
        let n = bytes.len();
        if n == 1 + ED25519_KEY_LEN && bytes[0] == ED25519_TAG {
            Some(PublicKey { bytes: vstd::slice::slice_to_vec(bytes) })
        } else if n == 1 + SECP256K1_KEY_LEN && bytes[0] == SECP256K1_TAG {
            Some(PublicKey { bytes: vstd::slice::slice_to_vec(bytes) })
        } else {
            None
        }
    }

    /// Serializes the key back into its canonical byte encoding.
    pub fn try_to_vec(&self) -> (r: Vec<u8>)
        ensures
            r@ == self@,
    {
        vstd::slice::slice_to_vec(self.bytes.as_slice())
    }
}

/// A signature, held in its canonical byte encoding.
///
/// Values of this type can only be made through
/// [`Signature::try_from_slice`], so every value satisfies
/// [`Signature::wf`].
#[derive(Clone, Debug, PartialEq, Eq)]
pub struct Signature {
    bytes: Vec<u8>,
}

impl View for Signature {
    type V = Seq<u8>;

    closed spec fn view(&self) -> Seq<u8> {
        self.bytes@
    }
}

impl Signature {
    /// A well-formed signature holds a canonical encoding.
    pub open spec fn wf(&self) -> bool {
        valid_signature_bytes(self@)
    }

    /// Deserializes a signature from its canonical byte encoding.
    /// Returns `None` exactly on malformed input.
    pub fn try_from_slice(bytes: &[u8]) -> (r: Option<Signature>)
        ensures
            r is Some <==> valid_signature_bytes(bytes@),
            r matches Some(sig) ==> sig@ == bytes@ && sig.wf(),
    {
        let n = bytes.len();
        if n == 1 + ED25519_SIG_LEN && bytes[0] == ED25519_TAG {
            Some(Signature { bytes: vstd::slice::slice_to_vec(bytes) })
        } else if n == 1 + SECP256K1_SIG_LEN && bytes[0] == SECP256K1_TAG {
            Some(Signature { bytes: vstd::slice::slice_to_vec(bytes) })
        } else {
            None
        }
    }

    /// Serializes the signature back into its canonical byte encoding.
    pub fn try_to_vec(&self) -> (r: Vec<u8>)
        ensures
            r@ == self@,
    {
        vstd::slice::slice_to_vec(self.bytes.as_slice())
    }
}

} // verus!
