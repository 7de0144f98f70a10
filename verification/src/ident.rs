//! Identifier tokens: 128-bit identifiers written as canonical UUID-like
//! text. Parsing is best-effort — malformed text degrades to the all-zero
//! identifier and never fails.

use vstd::prelude::*;

verus! {

/// The all-zero identifier token, the documented default for text that does
/// not parse as an identifier.
pub const ZERO_IDENTIFIER: u128 = 0;

/// What identifier-token text parses to: the 128-bit identifier it denotes,
/// or nothing when it is not well-formed identifier text. The result is a
/// function of the characters alone.
pub uninterp spec fn uuid_parse(s: Seq<char>) -> Option<u128>;

/// The identifier that best-effort parsing yields: the parsed token, or the
/// all-zero identifier when the text does not parse.
pub open spec fn parsed_or_zero(s: Seq<char>) -> u128 {
    match uuid_parse(s) {
        Some(t) => t,
        None => ZERO_IDENTIFIER as u128,
    }
}

/// Relies on `uuid::Uuid::parse_str` and `uuid::Uuid::as_u128`: parses
/// hyphenated, simple, braced or URN identifier text into its 128-bit value,
/// a function of the characters alone, and never panics.
#[verifier::external_body]
fn parse_identifier(s: &str) -> (r: Option<u128>)
    ensures
        r == uuid_parse(s@),
{
    uuid::Uuid::parse_str(s).ok().map(|u| u.as_u128())
}

/// Parses identifier-token text, substituting the all-zero identifier on any
/// parse failure rather than failing.
pub fn parse_identifier_or_zero(s: &str) -> (r: u128)
    ensures
        r == parsed_or_zero(s@),
{
    match parse_identifier(s) {
        Some(t) => t,
        None => ZERO_IDENTIFIER,
    }
}

} // verus!
