//! The two hash functions the aggregator relies on, both taken from outside
//! crates: SHA-256 for the digest of one blob, Keccak-256 for the chain.
use vstd::prelude::*;

verus! {

/// The SHA-256 digest of a byte string.
pub uninterp spec fn sha256_of(data: Seq<u8>) -> [u8; 32];

/// The Keccak-256 digest (the original Keccak padding, not SHA3-256) of a byte string.
pub uninterp spec fn keccak256_of(data: Seq<u8>) -> [u8; 32];

/// Relies on `sha2::Sha256::digest` (through the `sha2::Digest` trait): the
/// 32-byte SHA-256 digest of `data`, which depends on `data` alone.
#[verifier::external_body]
pub(crate) fn sha256(data: &[u8]) -> (r: [u8; 32])
    ensures
        r == sha256_of(data@),
{
    <sha2::Sha256 as sha2::Digest>::digest(data).into()
}

/// Relies on `sha3::Keccak256::digest` (through the `sha3::Digest` trait): the
/// 32-byte Keccak-256 digest of `data`, which depends on `data` alone.
#[verifier::external_body]
pub(crate) fn keccak256(data: &[u8]) -> (r: [u8; 32])
    ensures
        r == keccak256_of(data@),
{
    <sha3::Keccak256 as sha3::Digest>::digest(data).into()
}

/// The digest of one public-value blob: the value a proof of that blob is
/// verified against, and the value folded into the chain.
pub fn public_values_digest(blob: &[u8]) -> (r: [u8; 32])
    ensures
        r == sha256_of(blob@),
{
    sha256(blob)
}

} // verus!
