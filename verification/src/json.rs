//! JSON values as the tool-calling loop carries them.  The library never
//! looks inside a value: it parses tool arguments, prints values for display
//! and for the wire, and hands them on.  A value is known by its compact
//! JSON text, which `serde_json` writes the same way for `to_string` and for
//! `Display`.

use vstd::prelude::*;
use serde_json::Error as JsonError;
use crate::text::decimal;

verus! {

#[verifier::external_type_specification]
#[verifier::external_body]
pub struct ExJsonValue(serde_json::Value);

#[verifier::external_type_specification]
#[verifier::external_body]
pub struct ExJsonError(JsonError);

/// Names the compact JSON text that `serde_json::to_string` writes for `v`.
pub uninterp spec fn json_text_of(v: serde_json::Value) -> Seq<char>;

/// Names what `serde_json::from_str::<Value>` makes of `s`: the compact text
/// of the parsed value, or `None` when `s` is not JSON.
pub uninterp spec fn json_parse(s: Seq<char>) -> Option<Seq<char>>;

/// Names the compact text of the JSON object `{key: value}` with one
/// string field, as `serde_json::Value::from_iter` builds it.
pub uninterp spec fn json_string_object(key: Seq<char>, value: Seq<char>) -> Seq<char>;

/// Whether a key is written into JSON as it stands: ASCII letters, digits
/// and underscores need no escaping.
pub open spec fn plain_key(k: Seq<char>) -> bool {
    forall|i: int|
        0 <= i < k.len() ==> ('a' <= #[trigger] k[i] <= 'z') || ('A' <= k[i] <= 'Z') || ('0' <= k[i] <= '9') || k[i]
            == '_'
}

/// Parses text as a JSON value: wraps `serde_json::from_str::<Value>`.  It
/// succeeds exactly when the text parses (named `json_parse`), and the value
/// it gives back is the one that name describes.
#[verifier::external_body]
pub(crate) fn json_from_str(s: &str) -> (r: Result<serde_json::Value, JsonError>)
    ensures
        match json_parse(s@) {
            Some(t) => r matches Ok(v) && json_text_of(v) == t,
            None => r is Err,
        },
{
    serde_json::from_str(s)
}

/// The JSON `null` value: builds `serde_json::Value::Null`, whose text is
/// `null`.
#[verifier::external_body]
pub(crate) fn json_null() -> (r: serde_json::Value)
    ensures
        json_text_of(r) == "null"@,
{
    serde_json::Value::Null
}

/// Serialises a value as compact JSON text: wraps `serde_json::to_string`.
/// Its documentation says serialising fails only where the type's
/// `Serialize` decides to fail or a map has non-string keys; `Value`'s does
/// neither, so the result is always the value's text.
#[verifier::external_body]
pub(crate) fn json_to_string(v: &serde_json::Value) -> (r: Result<String, JsonError>)
    ensures
        r is Ok,
        r matches Ok(t) ==> t@ == json_text_of(*v),
{
    serde_json::to_string(v)
}

/// Renders a value through its `Display` impl (`serde_json::Value::fmt`),
/// which without the `#` flag runs the same compact serializer as
/// `to_string`: the text is the value's text.
#[verifier::external_body]
pub(crate) fn json_display(v: &serde_json::Value) -> (r: String)
    ensures
        r@ == json_text_of(*v),
{
    format!("{v}")
}

/// A copy of a value: wraps `serde_json::Value::clone` (derived), which
/// copies the value whole, so the copy has the same text.
#[verifier::external_body]
pub(crate) fn json_clone(v: &serde_json::Value) -> (r: serde_json::Value)
    ensures
        json_text_of(r) == json_text_of(*v),
{
    v.clone()
}

/// A JSON object with the one field `key` holding the number `n`: wraps
/// `serde_json::Value::from_iter` on a single key-value pair.  Its compact
/// text is `{"key":n}`, the number in decimal, when the key needs no
/// escaping.
#[verifier::external_body]
pub(crate) fn json_object_u64(key: String, n: u64) -> (r: serde_json::Value)
    ensures
        plain_key(key@) ==> json_text_of(r) == "{\""@ + key@ + "\":"@ + decimal(n as nat) + "}"@,
{
    <serde_json::Value as std::iter::FromIterator<(String, u64)>>::from_iter([(key, n)])
}

/// A JSON object with the one string field `key` holding `value`: wraps
/// `serde_json::Value::from_iter` on a single key-value pair.
#[verifier::external_body]
pub(crate) fn json_object_string(key: String, value: String) -> (r: serde_json::Value)
    ensures
        json_text_of(r) == json_string_object(key@, value@),
{
    <serde_json::Value as std::iter::FromIterator<(String, String)>>::from_iter([(key, value)])
}

} // verus!
