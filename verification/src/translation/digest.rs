//! SHA-256 digests in lower-case hexadecimal.

use sha2::Digest;
use vstd::prelude::*;
use vstd::string::*;

verus! {

/// The SHA-256 digest of `data`.
pub uninterp spec fn sha256(data: Seq<u8>) -> Seq<u8>;

/// The sixteen hexadecimal digits, lower case.
pub open spec fn hex_digits() -> Seq<char> {
    seq!['0', '1', '2', '3', '4', '5', '6', '7', '8', '9', 'a', 'b', 'c', 'd', 'e', 'f']
}

/// `c` is a lower-case hexadecimal digit.
pub open spec fn is_hex_digit(c: char) -> bool {
    ('0' <= c && c <= '9') || ('a' <= c && c <= 'f')
}

/// `data` in hexadecimal: two lower-case digits for each byte, high digit first.
pub open spec fn hex_lower(data: Seq<u8>) -> Seq<char>
    decreases data.len(),
{
    if data.len() == 0 {
        Seq::empty()
    } else {
        hex_lower(data.drop_last()) + seq![
            hex_digits()[data.last() as int / 16],
            hex_digits()[data.last() as int % 16],
        ]
    }
}

/// A hexadecimal text has two digits for each byte, and only digits.
pub proof fn lemma_hex_lower_shape(data: Seq<u8>)
    ensures
        hex_lower(data).len() == 2 * data.len(),
        forall|i: int| 0 <= i < hex_lower(data).len() ==> is_hex_digit(#[trigger] hex_lower(data)[i]),
    decreases data.len(),
{
    if data.len() > 0 {
        lemma_hex_lower_shape(data.drop_last());
        let high = data.last() as int / 16;
        let low = data.last() as int % 16;
        assert(0 <= high < 16 && 0 <= low < 16);
        assert(is_hex_digit(hex_digits()[high]));
        assert(is_hex_digit(hex_digits()[low]));
    }
}

/// Computes the SHA-256 digest of `data`.
///
/// Calls `sha2::Sha256::digest`. Trusted: the digest depends on the data
/// alone and has 32 bytes.
#[verifier::external_body]
pub(crate) fn sha256_digest(data: &[u8]) -> (digest: Vec<u8>)
    ensures
        digest@ == sha256(data@),
        digest@.len() == 32,
{
    sha2::Sha256::digest(data).to_vec()
}

/// Writes `data` in lower-case hexadecimal.
///
/// Calls `hex::encode`. Trusted: it writes two lower-case digits for each
/// byte, the high digit first.
#[verifier::external_body]
pub(crate) fn hex_encode(data: &[u8]) -> (text: String)
    ensures
        text@ == hex_lower(data@),
{
    hex::encode(data)
}

/// The SHA-256 digest of the UTF-8 bytes of `text`, in hexadecimal.
pub open spec fn digest_hex(text: Seq<char>) -> Seq<char> {
    hex_lower(sha256(vstd::utf8::encode_utf8(text)))
}

/// Computes the hexadecimal SHA-256 digest of a text.
pub fn hex_digest(text: &str) -> (digest: String)
    ensures
        digest@ == digest_hex(text@),
        digest@.len() == 64,
        forall|i: int| 0 <= i < digest@.len() ==> is_hex_digit(#[trigger] digest@[i]),
{
    let raw = sha256_digest(text.as_bytes());
    proof {
        lemma_hex_lower_shape(raw@);
    }
    hex_encode(raw.as_slice())
}

} // verus!
