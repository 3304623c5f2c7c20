//! The JSON side of the library: what `serde_json` decodes and writes.
//!
//! A decoded value is a `serde_json::Value`, opaque to the proofs; `Json` is
//! the tree that the contracts speak of. Each call into the crate has one
//! function here whose contract is taken on trust.

use vstd::prelude::*;

verus! {

/// The longest body, in bytes, that is handed to the JSON decoder.
///
/// The decoder counts the digits of a number in 32 bits. This limit keeps
/// every count well below what 32 bits hold.
pub const MAX_DOCUMENT_BYTES: usize = 268_435_456;

/// A JSON value as a mathematical tree.
///
/// A number stands as the text that `serde_json` writes for it. An object is a
/// map from its keys to its members: `serde_json` holds the members of an
/// object under distinct keys and, without its `preserve_order` feature, in
/// the order of the keys.
pub enum Json {
    Null,
    Bool(bool),
    Number(Seq<char>),
    Text(Seq<char>),
    Array(Seq<Json>),
    Object(Map<Seq<char>, Json>),
}

impl Json {
    /// The member of an object under `key`; `Null` where `self` is no object
    /// or has no such key.
    pub open spec fn member(self, key: Seq<char>) -> Json {
        match self {
            Json::Object(members) => if members.contains_key(key) {
                members[key]
            } else {
                Json::Null
            },
            _ => Json::Null,
        }
    }

    /// The compact JSON text of the value: `null` for a null value, and for
    /// every other value what `serde_json` writes for it.
    pub open spec fn rendered(self) -> Seq<char> {
        if self is Null {
            "null"@
        } else {
            json_rendered(self)
        }
    }

    /// The text of a JSON string; `None` for every other kind of value.
    pub open spec fn text(self) -> Option<Seq<char>> {
        match self {
            Json::Text(t) => Some(t),
            _ => None,
        }
    }
}

#[verifier::external_type_specification]
#[verifier::external_body]
pub struct ExValue(serde_json::Value);

#[verifier::external_type_specification]
#[verifier::external_body]
pub struct ExError(serde_json::Error);

/// The tree that a `serde_json::Value` holds.
pub uninterp spec fn json_model(value: serde_json::Value) -> Json;

/// The tree that `serde_json::from_slice` reads from `bytes`, or `None` where
/// it reports an error.
pub uninterp spec fn json_decoded(bytes: Seq<u8>) -> Option<Json>;

/// The compact JSON text that `serde_json` writes for a tree.
pub uninterp spec fn json_rendered(tree: Json) -> Seq<char>;

/// The document that a body holds: the tree that is decoded from it, and
/// `None` where the body is longer than the decoder is given or is no JSON
/// text.
pub open spec fn document_in(body: Seq<u8>) -> Option<Json> {
    if body.len() <= MAX_DOCUMENT_BYTES {
        json_decoded(body)
    } else {
        None
    }
}

/// `serde_json::from_slice::<Value>`: the result depends on the bytes alone,
/// and holds the tree named `json_decoded`. A number of some two thousand
/// million digits would overflow the call's digit count, so bodies that could
/// hold one are kept out.
#[verifier::external_body]
fn decode(bytes: &[u8]) -> (decoded: Result<serde_json::Value, serde_json::Error>)
    requires
        bytes@.len() <= MAX_DOCUMENT_BYTES,
    ensures
        match decoded {
            Ok(value) => json_decoded(bytes@) == Some(json_model(value)),
            Err(_) => json_decoded(bytes@) is None,
        },
{
    serde_json::from_slice::<serde_json::Value>(bytes)
}

/// `Value`'s `Index<&str>`: the member of an object under the key, and a null
/// value where the value is no object or the key is missing. It never panics.
#[verifier::external_body]
pub(crate) fn member<'a>(value: &'a serde_json::Value, key: &str) -> (found: &'a serde_json::Value)
    ensures
        json_model(*found) == json_model(*value).member(key@),
{
    &value[key]
}

/// `Value::as_str`: the text of a JSON string, `None` for any other value.
#[verifier::external_body]
pub(crate) fn as_text<'a>(value: &'a serde_json::Value) -> (text: Option<&'a str>)
    ensures
        match text {
            Some(t) => json_model(*value).text() == Some(t@),
            None => json_model(*value).text() is None,
        },
{
    value.as_str()
}

/// `Value`'s `Display` through `to_string`: the compact JSON text of the
/// value, which for a null value is `null`.
#[verifier::external_body]
pub(crate) fn render(value: &serde_json::Value) -> (text: String)
    ensures
        text@ == json_rendered(json_model(*value)),
        json_model(*value) is Null ==> text@ == "null"@,
{
    value.to_string()
}

/// Reads the document that a body holds. A body beyond the limit is not
/// decoded.
pub(crate) fn document(body: &[u8]) -> (read: Option<serde_json::Value>)
    ensures
        match read {
            Some(value) => document_in(body@) == Some(json_model(value)),
            None => document_in(body@) is None,
        },
{
    if body.len() > MAX_DOCUMENT_BYTES {
        return None;
    }
    match decode(body) {
        Ok(value) => Some(value),
        Err(_) => None,
    }
}

} // verus!
