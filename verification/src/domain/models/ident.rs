//! Identifiers of exchanges: 128-bit numbers in the layout of a UUID.

use vstd::prelude::*;

verus! {

/// The version that an identifier carries: the four bits above bit 76.
pub open spec fn version_of(id: u128) -> int {
    (id as int / 0x1_0000_0000_0000_0000_000) % 16
}

/// The variant that an identifier carries: the two bits above bit 62.
pub open spec fn variant_of(id: u128) -> int {
    (id as int / 0x4000_0000_0000_0000) % 4
}

/// Whether an identifier has the layout of a random UUID: version 4, and the
/// variant of RFC 4122.
pub open spec fn is_random_layout(id: u128) -> bool {
    version_of(id) == 4 && variant_of(id) == 2
}

/// The text of an identifier as `uuid` writes it: 32 lower-case hexadecimal
/// digits in groups of 8, 4, 4, 4 and 12, with hyphens between the groups.
pub uninterp spec fn hyphenated(id: u128) -> Seq<char>;

/// Draws a new random identifier.
///
/// Trusted: the body calls `uuid::Uuid::new_v4` and reads the result with
/// `Uuid::as_u128`. Which identifier comes back is a matter of chance; `uuid`
/// fixes only the version and variant bits, and that is all the contract
/// claims. The call panics where the operating system gives no random bytes.
#[verifier::external_body]
pub(crate) fn fresh_id() -> (id: u128)
    ensures
        is_random_layout(id),
{
    uuid::Uuid::new_v4().as_u128()
}

/// Whether a text has the shape of the hyphenated form: 36 characters, with
/// hyphens after the groups of 8, 4, 4 and 4.
pub open spec fn has_hyphenated_shape(text: Seq<char>) -> bool {
    &&& text.len() == 36
    &&& text[8] == '-'
    &&& text[13] == '-'
    &&& text[18] == '-'
    &&& text[23] == '-'
}

/// The identifier that `uuid` reads out of a text, if it reads one: it takes
/// 32 hexadecimal digits, plain, hyphenated, as a URN or in braces.
pub uninterp spec fn parsed_id(text: Seq<char>) -> Option<u128>;

/// Writes an identifier out in hyphenated form.
///
/// Trusted: the body calls `uuid::Uuid::from_u128` and the `Display`
/// implementation of `Uuid`. The text is a function of the identifier alone;
/// the contract gives it the name [`hyphenated`] and claims of it two things.
/// It has the shape that `uuid` lays out: 36 characters, with a hyphen at the
/// places 8, 13, 18 and 23. And `uuid` reads the identifier back out of it, as
/// the documentation of `Uuid::parse_str` promises for every format that
/// `uuid` writes.
#[verifier::external_body]
pub(crate) fn id_text(id: u128) -> (text: String)
    ensures
        text@ == hyphenated(id),
        has_hyphenated_shape(text@),
        parsed_id(text@) == Some(id),
{
    uuid::Uuid::from_u128(id).to_string()
}

/// Reads an identifier out of a text.
///
/// Trusted: the body calls `uuid::Uuid::parse_str` and reads a result with
/// `Uuid::as_u128`; the parser's error is dropped. What comes back is a
/// function of the text alone; the contract gives it the name [`parsed_id`].
#[verifier::external_body]
pub(crate) fn parse_id(text: &str) -> (id: Option<u128>)
    ensures
        id == parsed_id(text@),
{
    match uuid::Uuid::parse_str(text) {
        Ok(id) => Some(id.as_u128()),
        Err(_) => None,
    }
}

} // verus!
