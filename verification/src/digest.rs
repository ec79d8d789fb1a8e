//! The one-way hash behind invitation tokens.

use vstd::prelude::*;
use vstd::string::StringSliceAdditionalSpecFns;
use vstd::utf8::encode_utf8;

verus! {

/// The SHA-256 digest of `data`, as a mathematical function of the bytes.
pub uninterp spec fn sha256(data: Seq<u8>) -> Seq<u8>;

/// The digest a plaintext token is compared by: SHA-256 of its UTF-8 bytes.
pub open spec fn token_digest_of(token: Seq<char>) -> Seq<u8> {
    sha256(encode_utf8(token))
}

/// Calls `anchor_lang::solana_program::hash::hash` and unwraps the result with
/// `Hash::to_bytes`.
///
/// Trusted, not proved: the 32 bytes returned are the SHA-256 digest of
/// `data` and depend on nothing but `data`.
#[verifier::external_body]
pub(crate) fn sha256_digest(data: &[u8]) -> (digest: [u8; 32])
    ensures
        digest@ == sha256(data@),
{
    anchor_lang::solana_program::hash::hash(data).to_bytes()
}

/// Hashes an invitation token given as text: the digest of its UTF-8 bytes.
pub fn token_digest(token: &str) -> (digest: [u8; 32])
    ensures
        digest@ == token_digest_of(token@),
{
    sha256_digest(token.as_bytes())
}

} // verus!
