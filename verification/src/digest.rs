//! SHA-512 digests and lowercase hexadecimal encoding.

use vstd::prelude::*;

verus! {

/// The SHA-512 digest of a byte string, as computed by the `sha2` crate.
pub uninterp spec fn sha512_of(data: Seq<u8>) -> Seq<u8>;

/// Compute the SHA-512 hash of a byte slice.
///
/// Trusted: calls `sha2::Sha512::digest`. The contract claims that the digest is
/// the value named `sha512_of` of the input bytes, and that it is 64 bytes long
/// (SHA-512 has a fixed 512-bit output).
#[verifier::external_body]
pub fn sha512_hash(data: &[u8]) -> (digest: Vec<u8>)
    ensures
        digest@ == sha512_of(data@),
        digest@.len() == 64,
{
    <sha2::Sha512 as sha2::Digest>::digest(data).to_vec()
}

/// The lowercase hexadecimal digit for a nibble.
pub open spec fn hex_digit(nibble: int) -> char {
    if nibble < 10 {
        (48 + nibble) as char
    } else {
        (87 + nibble) as char
    }
}

/// Lowercase hexadecimal encoding: two digits per byte, high nibble first.
pub open spec fn hex_lower(bytes: Seq<u8>) -> Seq<char>
    decreases bytes.len(),
{
    if bytes.len() == 0 {
        Seq::empty()
    } else {
        seq![hex_digit(bytes[0] as int / 16), hex_digit(bytes[0] as int % 16)] + hex_lower(bytes.drop_first())
    }
}

/// Encode bytes as a lowercase hexadecimal string.
///
/// Trusted: calls `hex::encode`, which writes each byte as two digits taken from
/// `0123456789abcdef`, high nibble first; the contract states exactly that.
#[verifier::external_body]
pub(crate) fn hex_encode(bytes: &[u8]) -> (encoded: String)
    ensures
        encoded@ == hex_lower(bytes@),
{
    hex::encode(bytes)
}

} // verus!
