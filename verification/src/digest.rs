//! SHA-256 and hexadecimal encoding through the `sha2` and `hex` crates.

use sha2::Digest;
use vstd::prelude::*;

verus! {

/// The SHA-256 digest of `data`, as computed by `sha2::Sha256`.
pub uninterp spec fn sha256_digest(data: Seq<u8>) -> Seq<u8>;

/// Lowercase hexadecimal digit for a value below 16.
pub open spec fn hex_digit(n: u8) -> char {
    if n < 10 {
        ((n as u32) + 48) as char
    } else {
        ((n as u32) + 87) as char
    }
}

/// Lowercase hexadecimal rendering of bytes, two digits per byte, high nibble first.
pub open spec fn hex_lower(data: Seq<u8>) -> Seq<char>
    decreases data.len(),
{
    if data.len() == 0 {
        seq![]
    } else {
        hex_lower(data.drop_last()) + seq![hex_digit(data.last() / 16), hex_digit(data.last() % 16)]
    }
}

/// The hex rendering has two digits for each byte.
pub proof fn lemma_hex_lower_len(data: Seq<u8>)
    ensures
        hex_lower(data).len() == 2 * data.len(),
    decreases data.len(),
{
    if data.len() > 0 {
        lemma_hex_lower_len(data.drop_last());
    }
}

/// Computes SHA-256 of `data` (`sha2::Sha256::digest`); the digest is 32 bytes long.
#[verifier::external_body]
pub(crate) fn sha256(data: &[u8]) -> (r: Vec<u8>)
    ensures
        r@ == sha256_digest(data@),
        r@.len() == 32,
{
    sha2::Sha256::digest(data).to_vec()
}

/// Lowercase hexadecimal encoding of `data` (`hex::encode`).
#[verifier::external_body]
pub(crate) fn hex_encode(data: &[u8]) -> (r: String)
    ensures
        r@ == hex_lower(data@),
{
    hex::encode(data)
}

} // verus!
