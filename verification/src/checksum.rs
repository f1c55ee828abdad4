//! Checksums of file content, computed by the `sha2` and `hex` crates.

use vstd::prelude::*;

verus! {

/// The SHA-256 digest of `content`, written in lower-case hexadecimal.
pub uninterp spec fn sha256_hex(content: Seq<u8>) -> Seq<char>;

/// `sha2::Sha256::digest`, then `hex::encode`: the digest of the content in
/// hexadecimal. The result is the named one; nothing else is claimed of it.
#[verifier::external_body]
pub(crate) fn digest_hex(content: &[u8]) -> (r: String)
    ensures
        r@ == sha256_hex(content@),
{
    hex::encode(<sha2::Sha256 as sha2::Digest>::digest(content))
}

/// The SHA-256 checksum of `content`, in lower-case hexadecimal.
pub fn calculate_checksum(content: &[u8]) -> (r: String)
    ensures
        r@ == sha256_hex(content@),
{
    digest_hex(content)
}

} // verus!
