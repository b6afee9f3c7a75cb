//! The JSON values that cross this library, and the calls made on them.
//!
//! JSON values and objects are opaque here. What the library needs to know
//! of them is given a name, and the functions of this file are believed, not
//! proved, to relate those names to what the JSON crate and the standard
//! library return.

use vstd::prelude::*;

verus! {

/// A JSON value.
#[verifier::external_type_specification]
#[verifier::external_body]
pub struct ExValue(serde_json::Value);

/// A JSON object: member names mapped to JSON values.
#[verifier::external_type_specification]
#[verifier::external_body]
#[verifier::reject_recursive_types(K)]
#[verifier::reject_recursive_types(V)]
pub struct ExObject<K, V>(serde_json::Map<K, V>);

/// The error with which the JSON crate refuses to encode a value.
#[verifier::external_type_specification]
#[verifier::external_body]
pub struct ExJsonError(serde_json::Error);

/// The members of a JSON object: each member's name, mapped to the member's
/// text where the member is a JSON string and to `None` where it is a value
/// of any other kind.
pub uninterp spec fn members(object: serde_json::Map<String, serde_json::Value>) -> Map<Seq<char>, Option<Seq<char>>>;

/// The JSON value that is the given object.
pub uninterp spec fn object_value(object: serde_json::Map<String, serde_json::Value>) -> serde_json::Value;

/// The compact JSON encoding of a value in UTF-8, or `None` where the JSON
/// crate refuses to encode the value.
pub uninterp spec fn json_encoding(value: serde_json::Value) -> Option<Seq<u8>>;

/// The lowercase form of a text.
pub uninterp spec fn lowercase(text: Seq<char>) -> Seq<char>;

/// What a JSON object holds under one name.
#[derive(Debug, PartialEq, Eq)]
pub enum Lookup {
    /// The object has no member of that name.
    Absent,
    /// The member is not a JSON string.
    Other,
    /// The member is a JSON string with this text.
    Text(String),
}

impl Lookup {
    /// What `members` says of the name `key`.
    pub open spec fn of(members: Map<Seq<char>, Option<Seq<char>>>, key: Seq<char>) -> LookupView {
        if !members.contains_key(key) {
            LookupView::Absent
        } else {
            match members[key] {
                Some(text) => LookupView::Text(text),
                None => LookupView::Other,
            }
        }
    }
}

/// The mathematical value of a `Lookup`.
pub ghost enum LookupView {
    Absent,
    Other,
    Text(Seq<char>),
}

impl View for Lookup {
    type V = LookupView;

    open spec fn view(&self) -> LookupView {
        match self {
            Lookup::Absent => LookupView::Absent,
            Lookup::Other => LookupView::Other,
            Lookup::Text(text) => LookupView::Text(text@),
        }
    }
}

/// `serde_json::Map::new`: the new object has no members.
pub assume_specification[ serde_json::Map::<String, serde_json::Value>::new ]() -> (object: serde_json::Map<String, serde_json::Value>)
    ensures
        members(object) =~= Map::empty(),
;

/// `serde_json::Map::get`, told apart by the kind of value found: absent
/// when the object has no member named `key`, the member's text when the
/// member is a JSON string, and `Other` for a member of any other kind.
#[verifier::external_body]
pub(crate) fn lookup(object: &serde_json::Map<String, serde_json::Value>, key: &str) -> (found: Lookup)
    ensures
        found@ == Lookup::of(members(*object), key@),
{
    match object.get(key) {
        None => Lookup::Absent,
        Some(serde_json::Value::String(text)) => Lookup::Text(text.clone()),
        Some(serde_json::Value::Null) => Lookup::Other,
        Some(serde_json::Value::Bool(_)) => Lookup::Other,
        Some(serde_json::Value::Number(_)) => Lookup::Other,
        Some(serde_json::Value::Array(_)) => Lookup::Other,
        Some(serde_json::Value::Object(_)) => Lookup::Other,
    }
}

/// `serde_json::Value::Object`: the JSON value that is the given object.
#[verifier::external_body]
pub(crate) fn into_object_value(object: serde_json::Map<String, serde_json::Value>) -> (value: serde_json::Value)
    ensures
        value == object_value(object),
{
    serde_json::Value::Object(object)
}

/// What the JSON crate returned for an encoding, as a mathematical value:
/// the bytes of the encoding, or `None` for a refusal.
pub open spec fn encoded_view(encoded: Result<Vec<u8>, serde_json::Error>) -> Option<Seq<u8>> {
    match encoded {
        Ok(bytes) => Some(bytes@),
        Err(_) => None,
    }
}

/// `serde_json::to_string` on a JSON value, as the bytes of the text it
/// returns: the value's encoding where there is one, the crate's error where
/// there is none.
#[verifier::external_body]
pub(crate) fn encode(value: &serde_json::Value) -> (encoded: Result<Vec<u8>, serde_json::Error>)
    ensures
        encoded_view(encoded) == json_encoding(*value),
{
    serde_json::to_string(value).map(String::into_bytes)
}

/// `str::to_lowercase`: the lowercase form of `text`.
#[verifier::external_body]
pub(crate) fn to_lowercase(text: &str) -> (lowered: String)
    ensures
        lowered@ == lowercase(text@),
{
    text.to_lowercase()
}

} // verus!
