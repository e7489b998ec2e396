//! Content fingerprinting: a fixed-length hexadecimal digest of a byte
//! sequence. A leaf utility with no part in the persistence protocol.

use sha2::Digest;
use vstd::prelude::*;

verus! {

/// The lower-case hexadecimal SHA-512 digest of a byte sequence: a
/// deterministic function of the bytes alone.
pub uninterp spec fn sha512_hex_of(bytes: Seq<u8>) -> Seq<char>;

/// A lower-case hexadecimal digit.
pub open spec fn is_lower_hex_digit(c: char) -> bool {
    ('0' <= c && c <= '9') || ('a' <= c && c <= 'f')
}

/// Relies on sha2::Sha512: the digest is 64 bytes, rendered here as 128
/// lower-case hexadecimal characters, and depends on the input bytes alone.
#[verifier::external_body]
pub fn snap(bytes: &[u8]) -> (r: String)
    ensures
        r@ == sha512_hex_of(bytes@),
        r@.len() == 128,
        forall|i: int| 0 <= i < r@.len() ==> is_lower_hex_digit(#[trigger] r@[i]),
{
    let mut hasher = sha2::Sha512::new();
    hasher.update(bytes);
    hasher.finalize().iter().map(|b| format!("{:02x}", b)).collect()
}

} // verus!
