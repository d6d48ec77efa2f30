//! JSON documents as `serde_json` reads them.
//!
//! A `serde_json::Value` is opaque to the verifier. This module gives its
//! content a mathematical model and states, for each operation of
//! `serde_json` that the crate calls, what it returns in terms of that model.
//! None of these statements is proved: each repeats what `serde_json`
//! documents of the operation.

use vstd::prelude::*;

verus! {

/// What a JSON value holds.
pub enum JsonModel {
    Null,
    Bool(bool),
    /// `Some(n)` for a number that is stored as the integer `n`, `None` for
    /// one that is stored as a float.
    Number(Option<int>),
    Text(Seq<char>),
    Array(Seq<JsonModel>),
    Object(Map<Seq<char>, JsonModel>),
}

impl JsonModel {
    /// The member `key` of an object.
    pub open spec fn member(self, key: Seq<char>) -> Option<JsonModel> {
        match self {
            JsonModel::Object(members) => if members.contains_key(key) {
                Some(members[key])
            } else {
                None
            },
            _ => None,
        }
    }

    /// The elements of an array.
    pub open spec fn elements(self) -> Option<Seq<JsonModel>> {
        match self {
            JsonModel::Array(elements) => Some(elements),
            _ => None,
        }
    }

    /// The characters of a string.
    pub open spec fn text(self) -> Option<Seq<char>> {
        match self {
            JsonModel::Text(text) => Some(text),
            _ => None,
        }
    }

    /// The value of an integer that an `i64` can hold.
    pub open spec fn integer(self) -> Option<i64> {
        match self {
            JsonModel::Number(Some(n)) => if i64::MIN <= n <= i64::MAX {
                Some(n as i64)
            } else {
                None
            },
            _ => None,
        }
    }
}

#[verifier::external_type_specification]
#[verifier::external_body]
pub struct ExJsonValue(serde_json::Value);

/// What the value `value` holds.
pub uninterp spec fn json_model(value: serde_json::Value) -> JsonModel;

/// The document that `text` denotes in JSON, if it denotes one.
pub uninterp spec fn json_document(text: Seq<char>) -> Option<JsonModel>;

/// What each of `values` holds.
pub open spec fn json_models(values: Seq<serde_json::Value>) -> Seq<JsonModel> {
    Seq::new(values.len(), |i: int| json_model(values[i]))
}

/// `serde_json::from_str` into a `Value`: the document that `text` denotes,
/// and nothing when `text` is not JSON.
#[verifier::external_body]
pub(crate) fn json_from_str(text: &str) -> (document: Option<serde_json::Value>)
    ensures
        match document {
            Some(value) => json_document(text@) == Some(json_model(value)),
            None => json_document(text@) is None,
        },
{
    serde_json::from_str(text).ok()
}

/// `Value::get` with a string index: the member `key` of an object, and
/// nothing for a key that the object lacks or a value that is no object.
#[verifier::external_body]
pub(crate) fn json_get<'a>(value: &'a serde_json::Value, key: &str) -> (member: Option<
    &'a serde_json::Value,
>)
    ensures
        match member {
            Some(member) => json_model(*value).member(key@) == Some(json_model(*member)),
            None => json_model(*value).member(key@) is None,
        },
{
    value.get(key)
}

/// `Value::as_array`: the elements of an array in their order, and nothing
/// for a value that is no array.
#[verifier::external_body]
pub(crate) fn json_as_array(value: &serde_json::Value) -> (elements: Option<
    &Vec<serde_json::Value>,
>)
    ensures
        match elements {
            Some(elements) => json_model(*value).elements() == Some(json_models(elements@)),
            None => json_model(*value).elements() is None,
        },
{
    value.as_array()
}

/// `Value::as_str`: the characters of a string, and nothing for a value
/// that is no string.
#[verifier::external_body]
pub(crate) fn json_as_str(value: &serde_json::Value) -> (text: Option<&str>)
    ensures
        match text {
            Some(text) => json_model(*value).text() == Some(text@),
            None => json_model(*value).text() is None,
        },
{
    value.as_str()
}

/// `Value::as_i64`: the value of a number that is stored as an integer and
/// fits an `i64`, and nothing for any other value.
#[verifier::external_body]
pub(crate) fn json_as_i64(value: &serde_json::Value) -> (integer: Option<i64>)
    ensures
        integer == json_model(*value).integer(),
{
    value.as_i64()
}

} // verus!
