//! The three things that the token-transfer payload needs from a JSON library: reading a
//! document, taking a text member out of it, and quoting a text.

use vstd::prelude::*;

verus! {

#[verifier::external_type_specification]
#[verifier::external_body]
pub struct ExJsonValue(serde_json::Value);

/// The text members of the JSON document that `bytes` hold: each key of the top-level
/// object whose value is a JSON string, with that string. The map is empty where the
/// document is no object. There is none where `bytes` are not one JSON document.
pub uninterp spec fn json_members(bytes: Seq<u8>) -> Option<Map<Seq<char>, Seq<char>>>;

/// The text members of a document that was read: each key of the object whose value is a
/// JSON string, with that string; empty where the document is no object.
pub uninterp spec fn document_members(document: serde_json::Value) -> Map<Seq<char>, Seq<char>>;

/// The JSON string literal for `text`, quotes and escapes included.
pub uninterp spec fn json_quoted(text: Seq<char>) -> Seq<char>;

/// Reads `bytes` as one JSON document, with `serde_json::from_slice`.
///
/// Trusted: a document comes back exactly where `json_members` has a value for the
/// bytes, and then its text members are that value.
#[verifier::external_body]
pub(crate) fn read_document(bytes: &Vec<u8>) -> (document: Option<serde_json::Value>)
    ensures
        match document {
            Some(d) => json_members(bytes@) == Some(document_members(d)),
            None => json_members(bytes@).is_none(),
        },
{
    serde_json::from_slice::<serde_json::Value>(bytes.as_slice()).ok()
}

/// Takes the text under `key` out of a document, with `serde_json::Value::get`.
///
/// Trusted: a text comes back exactly where the object has a member `key` whose value is
/// a string, and it is that string.
#[verifier::external_body]
pub(crate) fn text_member(document: &serde_json::Value, key: &str) -> (text: Option<String>)
    ensures
        match text {
            Some(t) => document_members(*document).dom().contains(key@) && document_members(
                *document,
            )[key@] == t@,
            None => !document_members(*document).dom().contains(key@),
        },
{
    match document.get(key) {
        Some(serde_json::Value::String(text)) => Some(text.clone()),
        _ => None,
    }
}

/// Writes `text` as a JSON string literal, with `serde_json::to_string`.
///
/// Trusted: a literal always comes back, and it is `json_quoted` of the text. The
/// outside code writes a string into a byte vector in memory, which is the one step that
/// could report an error and which cannot fail there.
#[verifier::external_body]
pub(crate) fn quote(text: &str) -> (quoted: Option<String>)
    ensures
        quoted.is_some(),
        quoted->0@ == json_quoted(text@),
{
    serde_json::to_string(text).ok()
}

} // verus!
