//! Identifiers and time as plain integers.
//!
//! An identifier is the 128-bit value of a UUID; a timestamp is a count of
//! microseconds since the Unix epoch, UTC. The `uuid` and `chrono` crates
//! produce and print them.

use vstd::prelude::*;
use crate::digest::hex_digit;

verus! {

/// What `Uuid::parse_str` makes of a text: the identifier's value, or `None`
/// where the text is no UUID in any of the forms the `uuid` crate reads.
pub uninterp spec fn uuid_parse(text: Seq<char>) -> Option<u128>;

/// Length of the hyphenated form of an identifier.
pub const UUID_TEXT_LEN: usize = 36;

/// The `k`-th hexadecimal digit of `id`, counted from the most significant.
pub open spec fn uuid_nibble(id: u128, k: int) -> int {
    ((id >> ((4 * (31 - k)) as u128)) & 0xf) as int
}

/// Whether position `i` of the hyphenated form holds a hyphen.
pub open spec fn is_hyphen_position(i: int) -> bool {
    i == 8 || i == 13 || i == 18 || i == 23
}

/// How many hyphens stand before position `i` of the hyphenated form.
pub open spec fn hyphens_before(i: int) -> int {
    if i < 8 {
        0
    } else if i < 13 {
        1
    } else if i < 18 {
        2
    } else if i < 23 {
        3
    } else {
        4
    }
}

/// The hyphenated lowercase form of an identifier, `8-4-4-4-12` hex digits.
pub open spec fn uuid_text(id: u128) -> Seq<char> {
    Seq::new(
        UUID_TEXT_LEN as nat,
        |i: int|
            if is_hyphen_position(i) {
                '-'
            } else {
                hex_digit(uuid_nibble(id, i - hyphens_before(i)))
            },
    )
}

/// `Uuid::parse_str`, with the identifier handed back as its 128-bit value.
#[verifier::external_body]
pub(crate) fn parse_uuid(text: &str) -> (id: Option<u128>)
    ensures
        id == uuid_parse(text@),
{
    match uuid::Uuid::parse_str(text) {
        Ok(u) => Some(u.as_u128()),
        Err(_) => None,
    }
}

/// The `Display` form of a `Uuid`: lowercase hexadecimal digits of the
/// 128-bit value, most significant first, in hyphenated groups.
#[verifier::external_body]
pub(crate) fn format_uuid(id: u128) -> (text: String)
    ensures
        text@ == uuid_text(id),
{
    uuid::Uuid::from_u128(id).to_string()
}

/// `Uuid::now_v7`: a fresh version-7 identifier drawn from the clock and
/// random bits. Nothing is claimed of its value.
#[verifier::external_body]
pub(crate) fn fresh_uuid_v7() -> u128 {
    uuid::Uuid::now_v7().as_u128()
}

/// `Utc::now` of `chrono`, in microseconds since the epoch. Nothing is
/// claimed of its value.
#[verifier::external_body]
pub(crate) fn now_micros() -> i64 {
    chrono::Utc::now().timestamp_micros()
}

/// The creation time that a version-7 identifier carries: its first 48
/// bits, in milliseconds since the epoch.
pub open spec fn v7_millis(id: u128) -> u64 {
    (id >> 80) as u64
}

/// The creation time of a version-7 identifier, in milliseconds since the
/// epoch.
pub fn id_millis(id: u128) -> (millis: u64)
    ensures
        millis == v7_millis(id),
        millis < 0x1_0000_0000_0000,
{
    assert((id >> 80) < 0x1_0000_0000_0000u128) by (bit_vector);
    (id >> 80) as u64
}

/// Identifiers order by creation time: the one that was made in an earlier
/// millisecond is the lower one.
pub proof fn lemma_ids_order_by_time(a: u128, b: u128)
    requires
        v7_millis(a) < v7_millis(b),
    ensures
        a < b,
{
    assert((a >> 80) < 0x1_0000_0000_0000u128) by (bit_vector);
    assert((b >> 80) < 0x1_0000_0000_0000u128) by (bit_vector);
    assert((a >> 80) < (b >> 80) ==> a < b) by (bit_vector);
}

/// Reads an identifier from text.
pub fn parse_id(text: &str) -> (id: Option<u128>)
    ensures
        id == uuid_parse(text@),
{
    parse_uuid(text)
}

/// Prints an identifier in its hyphenated form.
pub fn id_text(id: u128) -> (text: String)
    ensures
        text@ == uuid_text(id),
        text@.len() == UUID_TEXT_LEN,
{
    format_uuid(id)
}

} // verus!
