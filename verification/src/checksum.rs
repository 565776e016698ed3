//! Content checksums of uploaded artifacts.
use crate::text::{hex_lower, to_hex_lower};
use vstd::prelude::*;

verus! {

/// What `sha2::Sha256::digest` gives for `data`.
pub uninterp spec fn sha256_digest(data: Seq<u8>) -> Seq<u8>;

/// Calls `sha2::Sha256::digest`. The contract names the digest and states
/// its length (the output type is a 32-byte array); SHA-256 itself is not
/// restated.
#[verifier::external_body]
fn sha256(data: &[u8]) -> (d: Vec<u8>)
    ensures
        d@ == sha256_digest(data@),
        d@.len() == 32,
{
    <sha2::Sha256 as sha2::Digest>::digest(data).to_vec()
}

/// The checksum of an artifact: its SHA-256 digest in lower-case hex
/// (64 characters).
pub fn artifact_checksum(artifact: &[u8]) -> (s: String)
    ensures
        s@ == hex_lower(sha256_digest(artifact@)),
        s@.len() == 64,
{
    let d = sha256(artifact);
    to_hex_lower(d.as_slice())
}

} // verus!
