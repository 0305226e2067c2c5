//! JSON documents as the adapters see them.
//!
//! Documents are `serde_json::Value`s. The verifier cannot look inside one, so
//! this module gives every document a mathematical model, [`JsonModel`], and
//! states what each `serde_json` operation used by the adapters does to that
//! model. Those statements are trusted, not proved: each one is a one-line
//! reading of the corresponding `serde_json` function.

use vstd::prelude::*;

verus! {

/// A JSON number as far as the adapters care.
pub enum JsonNumber {
    /// An integer, of either sign.
    Integer(int),
    /// A number with a fractional part or an exponent; its value is not modelled.
    Real,
}

/// The mathematical content of a JSON document.
pub enum JsonModel {
    Null,
    Bool(bool),
    Number(JsonNumber),
    Text(Seq<char>),
    List(Seq<JsonModel>),
    Object(Map<Seq<char>, JsonModel>),
}

impl JsonModel {
    /// The member stored under `key`, if this is an object that has one.
    pub open spec fn member(self, key: Seq<char>) -> Option<JsonModel> {
        match self {
            JsonModel::Object(fields) => if fields.contains_key(key) {
                Some(fields[key])
            } else {
                None
            },
            _ => None,
        }
    }

    /// The characters of a string document.
    pub open spec fn as_text(self) -> Option<Seq<char>> {
        match self {
            JsonModel::Text(s) => Some(s),
            _ => None,
        }
    }

    /// The value of a number document that is an integer in `0..=u64::MAX`.
    pub open spec fn as_natural(self) -> Option<u64> {
        match self {
            JsonModel::Number(JsonNumber::Integer(n)) => if 0 <= n <= u64::MAX {
                Some(n as u64)
            } else {
                None
            },
            _ => None,
        }
    }

    /// The elements of an array document.
    pub open spec fn as_list(self) -> Option<Seq<JsonModel>> {
        match self {
            JsonModel::List(items) => Some(items),
            _ => None,
        }
    }

    /// An object with no members.
    pub open spec fn empty_object() -> JsonModel {
        JsonModel::Object(Map::empty())
    }

    /// This object with `key` bound to `value`, replacing any earlier binding.
    /// A document that is not an object is returned as it is.
    pub open spec fn with_member(self, key: Seq<char>, value: JsonModel) -> JsonModel {
        match self {
            JsonModel::Object(fields) => JsonModel::Object(fields.insert(key, value)),
            _ => self,
        }
    }
}

/// `serde_json::Value`, a JSON document; nothing inside it is visible to
/// proofs, which speak of its model instead.
#[verifier::external_type_specification]
#[verifier::external_body]
pub struct ExJsonValue(serde_json::Value);

/// The model of a document: its variant and, recursively, its contents. The
/// members of an object are modelled without their order.
pub uninterp spec fn json_model(doc: serde_json::Value) -> JsonModel;

/// The compact JSON text of a document, as `serde_json` prints it, the
/// members of each object in the order of their keys.
pub uninterp spec fn json_text(doc: serde_json::Value) -> Seq<char>;

/// The node that an RFC 6901 JSON Pointer addresses inside a document.
pub uninterp spec fn json_pointer(doc: JsonModel, path: Seq<char>) -> Option<JsonModel>;

/// The models of a sequence of documents, element by element.
pub open spec fn json_models(docs: Seq<serde_json::Value>) -> Seq<JsonModel> {
    Seq::new(docs.len(), |i: int| json_model(docs[i]))
}

/// `serde_json::Value::pointer`: resolves a JSON Pointer. The node found, if
/// any, is the one that [`json_pointer`] names for the document's model.
#[verifier::external_body]
pub(crate) fn pointer<'a>(doc: &'a serde_json::Value, path: &str) -> (node: Option<
    &'a serde_json::Value,
>)
    ensures
        match node {
            Some(n) => json_pointer(json_model(*doc), path@) == Some(json_model(*n)),
            None => json_pointer(json_model(*doc), path@) is None,
        },
{
    doc.pointer(path)
}

/// `serde_json::Value::get` with a string index: the member of an object
/// under that key; `None` for a missing key and for anything but an object.
#[verifier::external_body]
pub(crate) fn get<'a>(doc: &'a serde_json::Value, key: &str) -> (node: Option<
    &'a serde_json::Value,
>)
    ensures
        match node {
            Some(n) => json_model(*doc).member(key@) == Some(json_model(*n)),
            None => json_model(*doc).member(key@) is None,
        },
{
    doc.get(key)
}

/// `serde_json::Value::as_str`: the string held by a string document.
#[verifier::external_body]
pub(crate) fn as_str<'a>(doc: &'a serde_json::Value) -> (text: Option<&'a str>)
    ensures
        match text {
            Some(s) => json_model(*doc).as_text() == Some(s@),
            None => json_model(*doc).as_text() is None,
        },
{
    doc.as_str()
}

/// `serde_json::Value::as_u64`: the value of a non-negative integer document.
#[verifier::external_body]
pub(crate) fn as_u64(doc: &serde_json::Value) -> (n: Option<u64>)
    ensures
        n == json_model(*doc).as_natural(),
{
    doc.as_u64()
}

/// `serde_json::Value::as_array`: the elements of an array document.
#[verifier::external_body]
pub(crate) fn as_array<'a>(doc: &'a serde_json::Value) -> (items: Option<
    &'a Vec<serde_json::Value>,
>)
    ensures
        match items {
            Some(v) => json_model(*doc).as_list() == Some(json_models(v@)),
            None => json_model(*doc).as_list() is None,
        },
{
    doc.as_array()
}

/// `Display` of `serde_json::Value`: the compact JSON text of the document.
#[verifier::external_body]
pub(crate) fn to_text(doc: &serde_json::Value) -> (text: String)
    ensures
        text@ == json_text(*doc),
{
    doc.to_string()
}

/// `Value::Object` over `serde_json::Map::new`: an object without members.
#[verifier::external_body]
pub(crate) fn empty_object() -> (doc: serde_json::Value)
    ensures
        json_model(doc) == JsonModel::empty_object(),
{
    serde_json::Value::Object(serde_json::Map::new())
}

/// `IndexMut<&str>` of `serde_json::Value`, applied to an object: binds `key`
/// to `value`, replacing an earlier binding of the same key.
#[verifier::external_body]
pub(crate) fn set_member(doc: &mut serde_json::Value, key: &str, value: serde_json::Value)
    requires
        json_model(*old(doc)) is Object,
    ensures
        json_model(*final(doc)) == json_model(*old(doc)).with_member(key@, json_model(value)),
{
    doc[key] = value;
}

/// `Value::String`: a string document.
#[verifier::external_body]
pub(crate) fn text_value(text: &str) -> (doc: serde_json::Value)
    ensures
        json_model(doc) == JsonModel::Text(text@),
{
    serde_json::Value::String(text.to_owned())
}

/// `From<i32>` of `serde_json::Value`: an integer document.
#[verifier::external_body]
pub(crate) fn integer_value(n: i32) -> (doc: serde_json::Value)
    ensures
        json_model(doc) == JsonModel::Number(JsonNumber::Integer(n as int)),
{
    serde_json::Value::from(n)
}

/// `Value::Array`: an array document holding the given elements in order.
#[verifier::external_body]
pub(crate) fn list_value(items: Vec<serde_json::Value>) -> (doc: serde_json::Value)
    ensures
        json_model(doc) == JsonModel::List(json_models(items@)),
{
    serde_json::Value::Array(items)
}

} // verus!
