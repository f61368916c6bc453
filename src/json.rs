//! Read access to `serde_json` values, described over a mathematical JSON tree.
use vstd::prelude::*;

verus! {

/// A JSON value as the decoders see it: strings and object keys as character
/// sequences, objects as maps from key to value.
pub enum JsonTree {
    Null,
    Bool(bool),
    Number(serde_json::Number),
    Str(Seq<char>),
    Array(Seq<JsonTree>),
    Object(Map<Seq<char>, JsonTree>),
}

#[verifier::external_type_specification]
#[verifier::external_body]
pub struct ExValue(serde_json::Value);

#[verifier::external_type_specification]
#[verifier::external_body]
pub struct ExNumber(serde_json::Number);

#[verifier::external_type_specification]
#[verifier::external_body]
pub struct ExError(serde_json::Error);

/// The tree that a `serde_json::Value` holds.
pub uninterp spec fn json_tree(v: serde_json::Value) -> JsonTree;

/// The tree that `serde_json::from_str` reads from a text, if the text is JSON.
pub uninterp spec fn json_text(s: Seq<char>) -> Option<JsonTree>;

/// The tree that `serde_json::from_slice` reads from bytes, if they are JSON.
pub uninterp spec fn json_bytes(b: Seq<u8>) -> Option<JsonTree>;

/// The text that `serde_json::Number`'s `Display` gives for a number.
pub uninterp spec fn number_text(n: serde_json::Number) -> Seq<char>;

/// The member `key` of an object; `None` for a missing key or a non-object.
pub open spec fn field_of(t: JsonTree, key: Seq<char>) -> Option<JsonTree> {
    match t {
        JsonTree::Object(m) => if m.contains_key(key) {
            Some(m[key])
        } else {
            None
        },
        _ => None,
    }
}

/// Relies on `serde_json::from_str`: parses a text into a value, or fails on
/// malformed JSON.
#[verifier::external_body]
pub(crate) fn parse_text(s: &str) -> (r: Result<serde_json::Value, serde_json::Error>)
    ensures
        match json_text(s@) {
            Some(t) => r matches Ok(v) && json_tree(v) == t,
            None => r is Err,
        },
{
    serde_json::from_str(s)
}

/// Relies on `serde_json::from_slice`: parses bytes into a value, or fails on
/// malformed JSON.
#[verifier::external_body]
pub(crate) fn parse_bytes(b: &[u8]) -> (r: Result<serde_json::Value, serde_json::Error>)
    ensures
        match json_bytes(b@) {
            Some(t) => r matches Ok(v) && json_tree(v) == t,
            None => r is Err,
        },
{
    serde_json::from_slice(b)
}

/// Relies on `serde_json::Value::as_str`: the string a value holds, if it is one.
#[verifier::external_body]
pub(crate) fn as_text(v: &serde_json::Value) -> (r: Option<&str>)
    ensures
        match json_tree(*v) {
            JsonTree::Str(s) => r matches Some(x) && x@ == s,
            _ => r is None,
        },
{
    v.as_str()
}

/// Relies on `serde_json::Value::as_array`: the elements of an array value.
#[verifier::external_body]
pub(crate) fn as_items(v: &serde_json::Value) -> (r: Option<&Vec<serde_json::Value>>)
    ensures
        match json_tree(*v) {
            JsonTree::Array(items) => r matches Some(a) && a@.len() == items.len() && (forall|
                i: int,
            |
                0 <= i < items.len() ==> #[trigger] json_tree(a@[i]) == items[i]),
            _ => r is None,
        },
{
    v.as_array()
}

/// Relies on `serde_json::Value::get` with a string index: the member of an
/// object under a key; `None` for a missing key or a value that is no object.
#[verifier::external_body]
pub(crate) fn member<'a>(v: &'a serde_json::Value, key: &str) -> (r: Option<&'a serde_json::Value>)
    ensures
        match field_of(json_tree(*v), key@) {
            Some(t) => r matches Some(x) && json_tree(*x) == t,
            None => r is None,
        },
{
    v.get(key)
}

/// Relies on `serde_json::Value::as_number`: a copy of the number a value holds.
#[verifier::external_body]
pub(crate) fn as_number(v: &serde_json::Value) -> (r: Option<serde_json::Number>)
    ensures
        match json_tree(*v) {
            JsonTree::Number(n) => r == Some(n),
            _ => r is None,
        },
{
    v.as_number().cloned()
}

/// Relies on `serde_json::Value::is_null`.
#[verifier::external_body]
pub(crate) fn is_null(v: &serde_json::Value) -> (r: bool)
    ensures
        r == (json_tree(*v) is Null),
{
    v.is_null()
}

/// Relies on `Clone` for `serde_json::Number` (derived): the copy is the same
/// number.
pub assume_specification[ <serde_json::Number as Clone>::clone ](n: &serde_json::Number) -> (r: serde_json::Number)
    ensures
        r == *n,
;

/// Relies on `Display` for `serde_json::Number`.
#[verifier::external_body]
pub(crate) fn show_number(n: &serde_json::Number) -> (r: String)
    ensures
        r@ == number_text(*n),
{
    n.to_string()
}

} // verus!
