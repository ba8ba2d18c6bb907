//! Transaction identifiers: 128-bit unique ids carried in their canonical
//! textual form, the lowercase hyphenated encoding (8-4-4-4-12 hex digits).
//!
//! Generation and parsing are done by the uuid crate behind trusted
//! wrappers; well-formedness of the text is this module's own spec.

use vstd::prelude::*;

verus! {

/// A lowercase hex digit, as the hyphenated encoding emits them.
pub open spec fn is_lower_hex_digit(c: char) -> bool {
    ('0' <= c && c <= '9') || ('a' <= c && c <= 'f')
}

/// The canonical text of an identifier: 36 characters, hyphens at
/// positions 8, 13, 18 and 23, lowercase hex digits everywhere else.
pub open spec fn is_id_text(s: Seq<char>) -> bool {
    &&& s.len() == 36
    &&& s[8] == '-' && s[13] == '-' && s[18] == '-' && s[23] == '-'
    &&& forall|i: int|
        0 <= i < 36 && i != 8 && i != 13 && i != 18 && i != 23 ==> is_lower_hex_digit(s[i])
}

/// What uuid's parser makes of a string: the canonical text of the
/// identifier it denotes, or nothing when it is not well formed.
pub uninterp spec fn parsed_id(s: Seq<char>) -> Option<Seq<char>>;

/// Relies on uuid::Uuid::new_v4 and the Hyphenated display: a freshly
/// drawn random identifier, rendered as lowercase hyphenated text.
/// The draw is random, so nothing relates two calls.
#[verifier::external_body]
pub(crate) fn fresh_id() -> (r: String)
    ensures
        is_id_text(r@),
{
    uuid::Uuid::new_v4().hyphenated().to_string()
}

/// Relies on uuid::Uuid::parse_str and the Hyphenated display: accepted
/// strings denote an identifier, which re-renders as lowercase hyphenated
/// text; a string already in that form denotes itself.
#[verifier::external_body]
pub(crate) fn parse_id(s: &str) -> (r: Option<String>)
    ensures
        (r is Some) <==> (parsed_id(s@) is Some),
        r matches Some(t) ==> parsed_id(s@) == Some(t@) && is_id_text(t@),
        r matches Some(t) ==> (is_id_text(s@) ==> t@ == s@),
        (r is None) ==> !is_id_text(s@),
{
    match uuid::Uuid::parse_str(s) {
        Ok(u) => Some(u.hyphenated().to_string()),
        Err(_) => None,
    }
}

} // verus!
