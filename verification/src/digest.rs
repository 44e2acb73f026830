//! SHA-256 digests and their textual encodings.
//!
//! The digest itself and the Base64 alphabet work are done by the `sha2` and
//! `base64` crates; lowercase hexadecimal is done by the `hex` crate and is
//! specified here digit by digit.

use vstd::prelude::*;
use vstd::utf8::is_ascii_chars;

verus! {

/// The SHA-256 digest of `data`, as the `sha2` crate computes it.
pub uninterp spec fn sha256(data: Seq<u8>) -> Seq<u8>;

/// The Base64 text of `data` in the standard alphabet with padding, as the
/// `base64` crate's `STANDARD` engine produces it.
pub uninterp spec fn base64_standard(data: Seq<u8>) -> Seq<char>;

/// Length of a SHA-256 digest in bytes.
pub const SHA256_LEN: usize = 32;

/// The lowercase hexadecimal digit for a value below 16.
pub open spec fn hex_digit(n: int) -> char {
    seq!['0', '1', '2', '3', '4', '5', '6', '7', '8', '9', 'a', 'b', 'c', 'd', 'e', 'f'][n]
}

/// Lowercase hexadecimal: two digits per byte, high nibble first.
pub open spec fn hex_lower(bytes: Seq<u8>) -> Seq<char> {
    Seq::new(
        2 * bytes.len(),
        |i: int|
            if i % 2 == 0 {
                hex_digit(bytes[i / 2] as int / 16)
            } else {
                hex_digit(bytes[i / 2] as int % 16)
            },
    )
}

/// Whether `c` is one of `0-9a-f`.
pub open spec fn is_hex_lower_char(c: char) -> bool {
    ('0' <= c && c <= '9') || ('a' <= c && c <= 'f')
}

/// Number of Base64 characters that encode `n` bytes, padding included.
pub open spec fn base64_len(n: nat) -> nat {
    4 * ((n + 2) / 3)
}

/// `Sha256::digest` of the `sha2` crate: the 32-byte SHA-256 digest of the
/// whole input. Nothing is claimed of the digest beyond its name and length.
#[verifier::external_body]
pub(crate) fn sha256_digest(data: &[u8]) -> (digest: Vec<u8>)
    ensures
        digest@ == sha256(data@),
        digest@.len() == SHA256_LEN,
{
    let out = <sha2::Sha256 as sha2::Digest>::digest(data);
    out.to_vec()
}

/// `hex::encode`: every byte becomes two lowercase hexadecimal digits, the
/// high nibble first.
#[verifier::external_body]
pub(crate) fn hex_encode(bytes: &[u8]) -> (text: String)
    ensures
        text@ == hex_lower(bytes@),
{
    hex::encode(bytes)
}

/// `Engine::encode` on `base64::engine::general_purpose::STANDARD`: the
/// padded Base64 text of the input, four ASCII characters for every started
/// group of three bytes. The call panics when the text's length overflows
/// `usize`, which the bound on the input rules out.
#[verifier::external_body]
pub(crate) fn base64_encode(data: &[u8]) -> (text: String)
    requires
        data@.len() <= 0x1000_0000,
    ensures
        text@ == base64_standard(data@),
        text@.len() == base64_len(data@.len()),
        is_ascii_chars(text@),
{
    base64::Engine::encode(&base64::engine::general_purpose::STANDARD, data)
}

/// Every character of a hexadecimal encoding is a lowercase hex digit, and
/// there are two of them per byte.
pub proof fn lemma_hex_lower_shape(bytes: Seq<u8>)
    ensures
        hex_lower(bytes).len() == 2 * bytes.len(),
        forall|i: int| 0 <= i < hex_lower(bytes).len() ==> is_hex_lower_char(#[trigger] hex_lower(bytes)[i]),
{
    assert forall|i: int| 0 <= i < hex_lower(bytes).len() implies is_hex_lower_char(
        #[trigger] hex_lower(bytes)[i],
    ) by {
        let b = bytes[i / 2] as int;
        assert(0 <= b / 16 < 16);
        assert(0 <= b % 16 < 16);
        lemma_hex_digit_is_hex(b / 16);
        lemma_hex_digit_is_hex(b % 16);
    }
}

/// A hex digit is a hex character.
pub proof fn lemma_hex_digit_is_hex(n: int)
    requires
        0 <= n < 16,
    ensures
        is_hex_lower_char(hex_digit(n)),
        hex_digit(n) as u32 <= 0x7f,
{
}

/// The hexadecimal SHA-256 digest of `data`: 64 lowercase hex digits.
pub fn sha256_hex(data: &[u8]) -> (text: String)
    ensures
        text@ == hex_lower(sha256(data@)),
        text@.len() == 64,
{
    let digest = sha256_digest(data);
    hex_encode(digest.as_slice())
}

} // verus!
