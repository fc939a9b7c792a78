//! Identifiers as text.
//!
//! An identifier is a UUID, held as its 128-bit value. Writing and reading
//! its text is the work of the `uuid` crate, which this module calls.

use vstd::prelude::*;

verus! {

/// The sixteen hexadecimal digits, in lower case.
pub open spec fn hex_digits() -> Seq<char> {
    seq!['0', '1', '2', '3', '4', '5', '6', '7', '8', '9', 'a', 'b', 'c', 'd', 'e', 'f']
}

/// The hexadecimal digit of `id` at `place`, counted from the most
/// significant of its 32 digits.
pub open spec fn uuid_digit(id: u128, place: int) -> char {
    hex_digits()[((id >> ((4 * (31 - place)) as u128)) & 0xf) as int]
}

/// How many hyphens stand before position `at` of a UUID's text.
pub open spec fn hyphens_before(at: int) -> int {
    if at < 8 {
        0
    } else if at < 13 {
        1
    } else if at < 18 {
        2
    } else if at < 23 {
        3
    } else {
        4
    }
}

/// The text of the UUID whose value is `id`, as `uuid::Uuid`'s `Display`
/// gives it: the 32 hexadecimal digits in lower case, most significant
/// first, in groups of 8, 4, 4, 4 and 12 with a hyphen between groups.
pub open spec fn uuid_text(id: u128) -> Seq<char> {
    Seq::new(
        36,
        |at: int|
            if at == 8 || at == 13 || at == 18 || at == 23 {
                '-'
            } else {
                uuid_digit(id, at - hyphens_before(at))
            },
    )
}

/// The value of the UUID that `uuid::Uuid::parse_str` reads from `text`, or
/// `None` where it rejects the text.
pub uninterp spec fn uuid_parse(text: Seq<char>) -> Option<u128>;

/// Calls `to_string` on the `uuid::Uuid` with value `id`.
///
/// Trusted: the text is the hyphenated lower-case form that `uuid_text`
/// states, and `parse_str` reads it back as the same identifier (the crate
/// documents that `parse_str` accepts every format that the crate itself
/// writes).
#[verifier::external_body]
pub(crate) fn format_uuid(id: u128) -> (text: String)
    ensures
        text@ == uuid_text(id),
        uuid_parse(text@) == Some(id),
{
    uuid::Uuid::from_u128(id).to_string()
}

/// Calls `uuid::Uuid::parse_str`.
///
/// Trusted: the result is the one that `uuid_parse` names, the UUID taken by
/// its 128-bit value.
#[verifier::external_body]
pub(crate) fn parse_uuid(text: &str) -> (id: Option<u128>)
    ensures
        id == uuid_parse(text@),
{
    match uuid::Uuid::parse_str(text) {
        Ok(parsed) => Some(parsed.as_u128()),
        Err(_) => None,
    }
}

} // verus!
