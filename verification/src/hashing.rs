//! SHA-256 digests in lowercase hexadecimal, through the `sha2` and `hex`
//! crates. The digest itself is opaque: it is only named, never spelled out.

use vstd::prelude::*;

verus! {

/// The lowercase-hex SHA-256 digest of the UTF-8 encoding of `s`.
/// Named, not defined: it depends on the characters of `s` alone.
pub uninterp spec fn sha256_hex_of(s: Seq<char>) -> Seq<char>;

/// Whether `c` is a lowercase hexadecimal digit.
pub open spec fn is_hex_char(c: char) -> bool {
    ('0' <= c && c <= '9') || ('a' <= c && c <= 'f')
}

/// Relies on `sha2::Sha256` and `hex::encode`: SHA-256 yields 32 bytes and
/// `hex::encode` renders each byte as two lowercase hex characters, so the
/// result has 64 lowercase-hex characters and depends only on the input text.
#[verifier::external_body]
pub fn sha256_hex(s: &str) -> (r: String)
    ensures
        r@ == sha256_hex_of(s@),
        r@.len() == 64,
        forall|i: int| 0 <= i < r@.len() ==> is_hex_char(#[trigger] r@[i]),
{
    let mut hasher = <sha2::Sha256 as sha2::Digest>::new();
    sha2::Digest::update(&mut hasher, s.as_bytes());
    hex::encode(sha2::Digest::finalize(hasher))
}

} // verus!
