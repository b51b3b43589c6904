//! The text members of a JSON document, as `serde_json` reads it.

use serde_json::Value;
use vstd::prelude::*;

verus! {

/// A JSON value of `serde_json`, carried as it is.
#[verifier::external_type_specification]
#[verifier::external_body]
pub struct ExValue(serde_json::Value);

/// The error of `serde_json`, carried as it is.
#[verifier::external_type_specification]
#[verifier::external_body]
pub struct ExError(serde_json::Error);

/// What a JSON value holds where it is an object: each of its keys, with the text behind it where
/// that is a string. A value that is no object holds nothing.
pub uninterp spec fn members(value: Value) -> Map<Seq<char>, Option<Seq<char>>>;

/// The text that a JSON value holds where it is a string.
pub uninterp spec fn string_of(value: Value) -> Option<Seq<char>>;

/// The members of the JSON document that a text is; `None` for a text that `serde_json` does not
/// accept as one JSON value.
pub uninterp spec fn document(text: Seq<char>) -> Option<Map<Seq<char>, Option<Seq<char>>>>;

/// The text behind `key` in a document: there is one where the document was accepted, is an object
/// with that key, and has a string there.
pub open spec fn text_member(
    doc: Option<Map<Seq<char>, Option<Seq<char>>>>,
    key: Seq<char>,
) -> Option<Seq<char>> {
    if doc is Some && doc->0.contains_key(key) {
        doc->0[key]
    } else {
        None
    }
}

/// An object gives the text behind each of its keys, and nothing for another key; a text that is no
/// JSON document gives nothing.
pub proof fn law_text_member_is_the_text_behind_the_key(
    doc: Map<Seq<char>, Option<Seq<char>>>,
    key: Seq<char>,
)
    ensures
        doc.contains_key(key) ==> text_member(Some(doc), key) == doc[key],
        !doc.contains_key(key) ==> text_member(Some(doc), key) is None,
        text_member(None, key) is None,
{
}

/// Calls `serde_json::from_str`. Whether the text is accepted, and what the value then holds,
/// depends on the text alone. The grammar itself is left to that function.
#[verifier::external_body]
fn parse(text: &str) -> (r: Result<Value, serde_json::Error>)
    ensures
        r matches Ok(value) ==> document(text@) == Some(members(value)),
        r is Err ==> document(text@) is None,
{
    serde_json::from_str::<Value>(text)
}

/// Calls `serde_json::Value::get` with a text as the index: the value behind the key where
/// `value` is an object that has it, and `None` otherwise.
#[verifier::external_body]
fn get<'a>(value: &'a Value, key: &str) -> (r: Option<&'a Value>)
    ensures
        r is Some <==> members(*value).contains_key(key@),
        r matches Some(member) ==> string_of(*member) == members(*value)[key@],
{
    value.get(key)
}

/// `serde_json::Value::as_str`: the text of a string value, and `None` for any other value.
pub assume_specification[ serde_json::Value::as_str ](value: &serde_json::Value) -> (r: Option<&str>)
    ensures
        r matches Some(text) ==> string_of(*value) == Some(text@),
        r is None ==> string_of(*value) is None,
;

/// The text behind `key` in the JSON object that `text` is.
pub fn string_member(text: &str, key: &str) -> (r: Option<String>)
    ensures
        r matches Some(s) ==> text_member(document(text@), key@) == Some(s@),
        r is None ==> text_member(document(text@), key@) is None,
{
    match parse(text) {
        Ok(value) => match get(&value, key) {
            Some(member) => match member.as_str() {
                Some(s) => Some(s.to_owned()),
                None => None,
            },
            None => None,
        },
        Err(_) => None,
    }
}

} // verus!
