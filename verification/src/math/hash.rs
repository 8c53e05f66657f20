//! SHA-256 digests, computed by the `solana_program` crate.

use vstd::prelude::*;

verus! {

/// The SHA-256 digest of `data`, as `solana_program::hash::hash` computes it.
pub uninterp spec fn sha256(data: Seq<u8>) -> Seq<u8>;

/// The SHA-256 digest of the given byte strings fed to the hasher one after
/// the other, as `solana_program::hash::hashv` computes it.
pub uninterp spec fn sha256_of_parts(parts: Seq<Seq<u8>>) -> Seq<u8>;

/// Calls `solana_program::hash::hash` and hands out the digest's bytes.
///
/// Trusted: the result is the function `sha256` of the bytes given, and of
/// nothing else.
#[verifier::external_body]
pub(crate) fn hash(data: &[u8]) -> (digest: [u8; 32])
    ensures
        digest@ == sha256(data@),
{
    solana_program::hash::hash(data).to_bytes()
}

/// Calls `solana_program::hash::hashv` on two byte strings and hands out the
/// digest's bytes.
///
/// Trusted: the result is the function `sha256_of_parts` of the two byte
/// strings in the order given, and of nothing else.
#[verifier::external_body]
pub(crate) fn hashv(first: &[u8], second: &[u8]) -> (digest: [u8; 32])
    ensures
        digest@ == sha256_of_parts(seq![first@, second@]),
{
    solana_program::hash::hashv(&[first, second]).to_bytes()
}

} // verus!
