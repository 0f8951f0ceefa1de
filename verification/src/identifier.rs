//! Account identifiers as they arrive in bytes.
//!
//! Outside the host an account is identified by the public key of its
//! signer. The host writes such a key as one byte that names the signature
//! scheme, followed by the key itself: 32 bytes for Ed25519 and Sr25519, 33
//! bytes for the two ECDSA schemes. This is the SCALE encoding of
//! `sp_runtime`'s `MultiSigner`.
//!
//! A byte sequence is an account identifier if it is exactly one such
//! encoding: a known scheme, a key of that scheme's length, and nothing after
//! it. The key is not checked against the scheme's curve.

use parity_scale_codec::Decode;
use sp_runtime::MultiSigner;
use vstd::prelude::*;

verus! {

/// The account identifier that a public key decodes to: the signature scheme
/// and the key of the signer.
#[derive(Clone, Copy, Debug, PartialEq, Eq)]
pub enum AccountIdentifier {
    Ed25519([u8; 32]),
    Sr25519([u8; 32]),
    Ecdsa([u8; 33]),
    /// An ECDSA key whose account is derived from its Ethereum address.
    Eth([u8; 33]),
}

impl AccountIdentifier {
    /// The byte that names the scheme in the encoding.
    pub open spec fn scheme(self) -> u8 {
        match self {
            AccountIdentifier::Ed25519(_) => 0,
            AccountIdentifier::Sr25519(_) => 1,
            AccountIdentifier::Ecdsa(_) => 2,
            AccountIdentifier::Eth(_) => 3,
        }
    }

    /// The bytes of the key.
    pub open spec fn key(self) -> Seq<u8> {
        match self {
            AccountIdentifier::Ed25519(key) => key@,
            AccountIdentifier::Sr25519(key) => key@,
            AccountIdentifier::Ecdsa(key) => key@,
            AccountIdentifier::Eth(key) => key@,
        }
    }

    /// The number of bytes that the encoding of this identifier takes.
    pub fn encoded_len(&self) -> (len: usize)
        ensures
            len == 1 + key_len(self.scheme()),
            key_len(self.scheme()) > 0,
    {
        match self {
            AccountIdentifier::Ed25519(_) => 33,
            AccountIdentifier::Sr25519(_) => 33,
            AccountIdentifier::Ecdsa(_) => 34,
            AccountIdentifier::Eth(_) => 34,
        }
    }
}

/// The length of a key of the scheme that `scheme` names, or 0 if it names
/// none.
pub open spec fn key_len(scheme: u8) -> int {
    if scheme == 0 || scheme == 1 {
        32
    } else if scheme == 2 || scheme == 3 {
        33
    } else {
        0
    }
}

/// Whether `bytes` begin with an encoded account identifier: a byte that
/// names a scheme, then at least as many bytes as a key of that scheme has.
pub open spec fn begins_with_account_identifier(bytes: Seq<u8>) -> bool {
    bytes.len() >= 1 && key_len(bytes[0]) > 0 && bytes.len() >= 1 + key_len(bytes[0])
}

/// Whether `bytes` are exactly one encoded account identifier, with nothing
/// left over.
pub open spec fn is_account_identifier(bytes: Seq<u8>) -> bool {
    bytes.len() >= 1 && key_len(bytes[0]) > 0 && bytes.len() == 1 + key_len(bytes[0])
}

/// Whether `identifier` is what the beginning of `bytes` encodes.
pub open spec fn encodes(bytes: Seq<u8>, identifier: AccountIdentifier) -> bool {
    &&& begins_with_account_identifier(bytes)
    &&& identifier.scheme() == bytes[0]
    &&& identifier.key() == bytes.subrange(1, 1 + key_len(bytes[0]))
}

/// `Decode::decode` of `parity-scale-codec` for `sp_runtime::MultiSigner`,
/// reading from a byte slice: it takes the first byte as the number of the
/// variant and the bytes after it as the key of that variant, 32 or 33 of
/// them. It fails if there is no such variant or there are too few bytes;
/// bytes after the key are not looked at. The decoder's error carries no more
/// than a message and is dropped.
#[verifier::external_body]
fn scale_decode_signer(bytes: &[u8]) -> (decoded: Option<AccountIdentifier>)
    ensures
        decoded is Some <==> begins_with_account_identifier(bytes@),
        decoded matches Some(identifier) ==> encodes(bytes@, identifier),
{
    let mut input = bytes;
    match MultiSigner::decode(&mut input) {
        Ok(MultiSigner::Ed25519(key)) => Some(AccountIdentifier::Ed25519(key.0)),
        Ok(MultiSigner::Sr25519(key)) => Some(AccountIdentifier::Sr25519(key.0)),
        Ok(MultiSigner::Ecdsa(key)) => Some(AccountIdentifier::Ecdsa(key.0)),
        Ok(MultiSigner::Eth(key)) => Some(AccountIdentifier::Eth(key.0)),
        Err(_) => None,
    }
}

/// The account identifier that `bytes` encode, if they are exactly one
/// encoded identifier.
///
/// Bytes that begin with an identifier and go on after it are refused like
/// bytes that hold none.
pub fn decode_account_identifier(bytes: &[u8]) -> (decoded: Option<AccountIdentifier>)
    ensures
        decoded is Some <==> is_account_identifier(bytes@),
        decoded matches Some(identifier) ==> encodes(bytes@, identifier),
{
    match scale_decode_signer(bytes) {
        Some(identifier) => {
            if identifier.encoded_len() == bytes.len() {
                Some(identifier)
            } else {
                None
            }
        },
        None => None,
    }
}

} // verus!
