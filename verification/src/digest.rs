//! Digests.
use vstd::prelude::*;
use vstd::string::*;

verus! {

/// The SHA-256 digest of a byte string in lower case hexadecimal, as `sha2::Sha256` computes it.
pub uninterp spec fn sha256_hex_of(bytes: Seq<u8>) -> Seq<char>;

/// `sha2::Sha256::digest`, written in lower case hexadecimal.
#[verifier::external_body]
fn sha2_digest_hex(bytes: &[u8]) -> (r: String)
    ensures
        r@ == sha256_hex_of(bytes@),
{
    format!("{:x}", <sha2::Sha256 as sha2::Digest>::digest(bytes))
}

/// The SHA-256 digest of a text's UTF-8 bytes in lower case hexadecimal.
pub fn sha256_hex(text: &str) -> (r: String)
    ensures
        r@ == sha256_hex_of(text.spec_bytes()),
{
    sha2_digest_hex(text.as_bytes())
}

} // verus!
