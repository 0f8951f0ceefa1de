//! Signatures kept with a DID by its controllers.
//!
//! The proof is an Ed25519 signature as `sp_core` holds it: 64 bytes that
//! this library stores and never checks.

use sp_core::crypto_bytes::{CryptoBytes, SignatureTag};
use sp_core::ed25519::{Ed25519Tag, Signature};
use vstd::prelude::*;

verus! {

/// `SignatureTag`: a marker type that tells signature bytes from other
/// bytes.
#[verifier::external_type_specification]
#[verifier::external_body]
pub struct ExSignatureTag(SignatureTag);

/// `Ed25519Tag`: a marker type that tells Ed25519 from other schemes.
#[verifier::external_type_specification]
#[verifier::external_body]
pub struct ExEd25519Tag(Ed25519Tag);

/// `CryptoBytes`: `N` bytes under a marker. A `Signature` is 64 of them.
#[verifier::external_type_specification]
#[verifier::external_body]
#[verifier::reject_recursive_types(T)]
pub struct ExCryptoBytes<const N: usize, T>(CryptoBytes<N, T>);

/// The 64 bytes that a signature holds.
pub uninterp spec fn signature_bytes(signature: Signature) -> Seq<u8>;

/// `CryptoBytes::from_raw` of `sp-core`: the signature that holds the bytes
/// given.
#[verifier::external_body]
fn signature_from_raw(raw: [u8; 64]) -> (signature: Signature)
    ensures
        signature_bytes(signature) == raw@,
{
    Signature::from_raw(raw)
}

/// `Clone::clone` of `CryptoBytes`: a copy that holds the same bytes.
pub assume_specification<const N: usize, T>[ <CryptoBytes<N, T> as Clone>::clone ](
    bytes: &CryptoBytes<N, T>,
) -> (copy: CryptoBytes<N, T>)
    ensures
        copy == *bytes,
;

/// A signature of a DID controller.
#[derive(Clone, Debug, PartialEq, Eq)]
pub struct DIDSignature {
    pub public_key: Vec<u8>,
    pub proof: Signature,
    pub active: bool,
}

impl DIDSignature {
    /// An active entry without a key, whose proof is 64 zero bytes.
    pub fn default() -> (signature: Self)
        ensures
            signature.public_key@ == Seq::<u8>::empty(),
            signature_bytes(signature.proof) == Seq::new(64, |i: int| 0u8),
            signature.active,
    {
        let proof = signature_from_raw([0u8; 64]);
        assert(signature_bytes(proof) =~= Seq::new(64, |i: int| 0u8));
        DIDSignature { public_key: Vec::new(), proof, active: true }
    }
}

} // verus!
