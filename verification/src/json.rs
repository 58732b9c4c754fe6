//! Reading JSON documents with `serde_json`.
//!
//! The documents handled here are raw bytes; each accessor parses them with
//! `serde_json::from_slice` into a `serde_json::Value` and reads one member.
//! What `serde_json` computes is named by an uninterpreted function of the
//! bytes and the member's name.
use crate::text::opt_view;
use vstd::prelude::*;

verus! {

/// Whether `serde_json::from_slice::<serde_json::Value>` accepts the bytes.
pub uninterp spec fn json_accepts(document: Seq<u8>) -> bool;

/// The string member `key` of the top-level object of the document, as
/// `value[key].as_str()`; `None` when the document does not parse, is not an
/// object, lacks the member or the member is not a string.
pub uninterp spec fn json_str_member(document: Seq<u8>, key: Seq<char>) -> Option<Seq<char>>;

/// The serialization (`serde_json::to_vec`) of the object member `key` of the
/// top-level object, as `value[key].as_object()`; `None` when there is no such
/// object member.
pub uninterp spec fn json_object_member(document: Seq<u8>, key: Seq<char>) -> Option<Seq<u8>>;

/// The integer member `key` of the top-level object, as `value[key].as_i64()`.
pub uninterp spec fn json_i64_member(document: Seq<u8>, key: Seq<char>) -> Option<i64>;

/// The serialization of the object `{key: value}`.
pub uninterp spec fn json_u32_object(key: Seq<char>, value: u32) -> Seq<u8>;

/// For the array `document[outer][inner]`, the string members `first` and
/// `second` of each element; `None` when that is not an array.
pub uninterp spec fn json_nested_pairs(
    document: Seq<u8>,
    outer: Seq<char>,
    inner: Seq<char>,
    first: Seq<char>,
    second: Seq<char>,
) -> Option<Seq<(Option<Seq<char>>, Option<Seq<char>>)>>;

/// The view of an optional byte vector.
pub open spec fn opt_bytes(o: Option<Vec<u8>>) -> Option<Seq<u8>> {
    match o {
        Some(b) => Some(b@),
        None => None,
    }
}

/// The view of a list of optional string pairs.
pub open spec fn opt_str_pairs(v: Seq<(Option<String>, Option<String>)>) -> Seq<
    (Option<Seq<char>>, Option<Seq<char>>),
> {
    v.map_values(|p: (Option<String>, Option<String>)| (opt_view(p.0), opt_view(p.1)))
}

/// Whether `serde_json::from_slice::<serde_json::Value>` accepts the document.
#[verifier::external_body]
pub(crate) fn json_parses(document: &[u8]) -> (r: bool)
    ensures
        r == json_accepts(document@),
{
    serde_json::from_slice::<serde_json::Value>(document).is_ok()
}

/// Reads a string member of a JSON document
/// (`serde_json::from_slice`, then `Value::get` and `Value::as_str`).
#[verifier::external_body]
pub(crate) fn json_str_field(document: &[u8], key: &str) -> (r: Option<String>)
    ensures
        opt_view(r) == json_str_member(document@, key@),
{
    let value = serde_json::from_slice::<serde_json::Value>(document).ok()?;
    value.get(key).and_then(|m| m.as_str()).map(|s| s.to_string())
}

/// Reads an object member of a JSON document and serializes it again
/// (`serde_json::from_slice`, `Value::get`, `Value::as_object`, `serde_json::to_vec`).
#[verifier::external_body]
pub(crate) fn json_object_field(document: &[u8], key: &str) -> (r: Option<Vec<u8>>)
    ensures
        opt_bytes(r) == json_object_member(document@, key@),
{
    let value = serde_json::from_slice::<serde_json::Value>(document).ok()?;
    value.get(key).and_then(|m| m.as_object()).and_then(|o| serde_json::to_vec(o).ok())
}

/// Reads an integer member of a JSON document
/// (`serde_json::from_slice`, `Value::get` and `Value::as_i64`).
#[verifier::external_body]
pub(crate) fn json_i64_field(document: &[u8], key: &str) -> (r: Option<i64>)
    ensures
        r == json_i64_member(document@, key@),
{
    let value = serde_json::from_slice::<serde_json::Value>(document).ok()?;
    value.get(key).and_then(|m| m.as_i64())
}

/// Serializes the object `{key: value}` with `serde_json::to_vec`.
///
/// Beside the name of the result, this states the round trip that
/// `serde_json` documents: the serialization parses, and its member `key` is
/// the number written.
#[verifier::external_body]
pub(crate) fn json_u32_document(key: &str, value: u32) -> (r: Vec<u8>)
    ensures
        r@ == json_u32_object(key@, value),
        json_accepts(r@),
        json_i64_member(r@, key@) == Some(value as i64),
{
    let mut object = serde_json::Map::new();
    object.insert(key.to_string(), serde_json::Value::from(value));
    serde_json::to_vec(&object).unwrap_or_default()
}

/// Reads the string members `first` and `second` of each element of the
/// array `document[outer][inner]` (`serde_json::from_slice`, `Value::get`,
/// `Value::as_array` and `Value::as_str`).
#[verifier::external_body]
pub(crate) fn json_nested_pair_list(
    document: &[u8],
    outer: &str,
    inner: &str,
    first: &str,
    second: &str,
) -> (r: Option<Vec<(Option<String>, Option<String>)>>)
    ensures
        match r {
            Some(v) => json_nested_pairs(document@, outer@, inner@, first@, second@) == Some(
                opt_str_pairs(v@),
            ),
            None => json_nested_pairs(document@, outer@, inner@, first@, second@) is None,
        },
{
    let value = serde_json::from_slice::<serde_json::Value>(document).ok()?;
    let items = value.get(outer)?.get(inner)?.as_array()?;
    let field = |c: &serde_json::Value, k: &str| c.get(k).and_then(|f| f.as_str()).map(String::from);
    Some(items.iter().map(|c| (field(c, first), field(c, second))).collect())
}

} // verus!
