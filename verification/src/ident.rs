//! Identifiers: fresh random ones, and UUIDs read from text.
//!
//! A fresh identifier comes from a random source, so nothing here says which
//! one is returned: only the shape that every one of them has.

use vstd::prelude::*;

verus! {

/// Whether `c` belongs to the URL-safe alphabet: `_`, `-`, a digit or an
/// unaccented Latin letter.
pub open spec fn is_url_safe(c: char) -> bool {
    c == '_' || c == '-' || ('0' <= c && c <= '9') || ('a' <= c && c <= 'z') || ('A' <= c && c
        <= 'Z')
}

/// Whether `id` has the shape of a random identifier: 21 URL-safe characters.
pub open spec fn is_random_id(id: Seq<char>) -> bool {
    &&& id.len() == 21
    &&& forall|i: int| 0 <= i < id.len() ==> is_url_safe(#[trigger] id[i])
}

/// Whether `c` is a lower-case hexadecimal digit.
pub open spec fn is_lower_hex(c: char) -> bool {
    ('0' <= c && c <= '9') || ('a' <= c && c <= 'f')
}

/// Whether `id` has the shape of a hyphenated lower-case UUID: 36 characters,
/// hyphens after the 8th, 12th, 16th and 20th hexadecimal digit.
pub open spec fn is_hyphenated_uuid(id: Seq<char>) -> bool {
    &&& id.len() == 36
    &&& forall|i: int|
        0 <= i < id.len() ==> if i == 8 || i == 13 || i == 18 || i == 23 {
            #[trigger] id[i] == '-'
        } else {
            is_lower_hex(id[i])
        }
}

/// A fresh random identifier.
///
/// Trusted: calls `nanoid::format` with the crate's default random source, its
/// `SAFE` alphabet and size 21, as the `nanoid!()` macro does. With that
/// alphabet of 64 characters every random byte selects a character, so the
/// call returns, and it returns exactly 21 characters of that alphabet.
#[verifier::external_body]
pub(crate) fn random_id() -> (id: String)
    ensures
        is_random_id(id@),
{
    nanoid::format(nanoid::rngs::default, &nanoid::alphabet::SAFE, 21)
}

/// A fresh request identifier.
///
/// Trusted: calls `uuid::Uuid::new_v4` and renders the result with its
/// `Display` impl, which writes the hyphenated lower-case form.
#[verifier::external_body]
pub(crate) fn random_request_id() -> (id: String)
    ensures
        is_hyphenated_uuid(id@),
{
    uuid::Uuid::new_v4().to_string()
}

/// The UUID that `text` denotes, in the hyphenated lower-case form; `None`
/// if `text` denotes none. The forms that denote one are those that
/// `uuid::Uuid::parse_str` accepts.
pub uninterp spec fn parsed_uuid(text: Seq<char>) -> Option<Seq<char>>;

/// Reads a UUID and renders it in the hyphenated lower-case form.
///
/// Trusted: calls `uuid::Uuid::parse_str`, and on success renders the result
/// with its `Display` impl, which writes the hyphenated lower-case form. The
/// result depends on the text alone.
#[verifier::external_body]
pub(crate) fn parse_uuid(text: &str) -> (canonical: Option<String>)
    ensures
        match canonical {
            Some(id) => parsed_uuid(text@) == Some(id@) && is_hyphenated_uuid(id@),
            None => parsed_uuid(text@) is None,
        },
{
    match uuid::Uuid::parse_str(text) {
        Ok(id) => Some(id.to_string()),
        Err(_) => None,
    }
}

} // verus!
