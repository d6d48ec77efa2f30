//! TOML documents as the `toml` crate reads and writes them.
//!
//! A `toml::Value` is opaque to the verifier. This module gives its content
//! a mathematical model and states, for each operation of `toml` that the
//! crate calls, what it returns in terms of that model. None of these
//! statements is proved: each repeats what the source of `toml` shows of
//! the operation. Tables keep the order in which their entries were put in,
//! which `toml` does with its feature `preserve_order`.

use vstd::prelude::*;

verus! {

/// What a TOML value holds.
pub enum TomlModel {
    Text(Seq<char>),
    Integer(int),
    Array(Seq<TomlModel>),
    /// The entries of a table, each a key with its value, in their order.
    Table(Seq<(Seq<char>, TomlModel)>),
    /// A float, a boolean or a date.
    Other,
}

/// The value of the first of `entries` under `key`.
pub open spec fn entry_of(entries: Seq<(Seq<char>, TomlModel)>, key: Seq<char>) -> Option<
    TomlModel,
>
    decreases entries.len(),
{
    if entries.len() == 0 {
        None
    } else if entries[0].0 == key {
        Some(entries[0].1)
    } else {
        entry_of(entries.skip(1), key)
    }
}

/// No two of `entries` have the same key.
pub open spec fn distinct_keys(entries: Seq<(Seq<char>, TomlModel)>) -> bool {
    forall|i: int, j: int|
        0 <= i < j < entries.len() ==> (#[trigger] entries[i]).0 != (#[trigger] entries[j]).0
}

impl TomlModel {
    /// The value of a table under `key`.
    pub open spec fn member(self, key: Seq<char>) -> Option<TomlModel> {
        match self {
            TomlModel::Table(entries) => entry_of(entries, key),
            _ => None,
        }
    }

    /// The elements of an array.
    pub open spec fn elements(self) -> Option<Seq<TomlModel>> {
        match self {
            TomlModel::Array(elements) => Some(elements),
            _ => None,
        }
    }

    /// The characters of a string.
    pub open spec fn text(self) -> Option<Seq<char>> {
        match self {
            TomlModel::Text(text) => Some(text),
            _ => None,
        }
    }

    /// The value of an integer.
    pub open spec fn integer(self) -> Option<int> {
        match self {
            TomlModel::Integer(integer) => Some(integer),
            _ => None,
        }
    }

    /// Whether the value is made of strings, integers, arrays and tables
    /// with distinct keys alone.
    pub open spec fn is_plain(self) -> bool
        decreases self,
    {
        match self {
            TomlModel::Text(_) => true,
            TomlModel::Integer(_) => true,
            TomlModel::Array(elements) => forall|i: int|
                0 <= i < elements.len() ==> (#[trigger] elements[i]).is_plain(),
            TomlModel::Table(entries) => distinct_keys(entries) && forall|i: int|
                0 <= i < entries.len() ==> (#[trigger] entries[i]).1.is_plain(),
            TomlModel::Other => false,
        }
    }
}

#[verifier::external_type_specification]
#[verifier::external_body]
pub struct ExTomlValue(toml::Value);

/// What the value `value` holds.
pub uninterp spec fn toml_model(value: toml::Value) -> TomlModel;

/// The table that `text` denotes as a TOML document, or what `toml` says
/// is wrong with a text that denotes none.
pub uninterp spec fn toml_document(text: Seq<char>) -> Result<TomlModel, Seq<char>>;

/// The TOML document that `toml` writes for a plain value, or what `toml`
/// says of a value that it does not write.
pub uninterp spec fn toml_text(document: TomlModel) -> Result<Seq<char>, Seq<char>>;

/// What each of `values` holds.
pub open spec fn toml_models(values: Seq<toml::Value>) -> Seq<TomlModel> {
    Seq::new(values.len(), |i: int| toml_model(values[i]))
}

/// The entries of a table that is made of `entries`.
pub open spec fn toml_entries(entries: Seq<(String, toml::Value)>) -> Seq<(Seq<char>, TomlModel)> {
    Seq::new(entries.len(), |i: int| (entries[i].0@, toml_model(entries[i].1)))
}

/// `toml::from_str` into a `Value`: the table that `text` denotes as a
/// document, or, for a text that is no TOML document, what
/// `toml::de::Error::message` says went wrong.
#[verifier::external_body]
pub(crate) fn toml_from_str(text: &str) -> (document: Result<toml::Value, String>)
    ensures
        match document {
            Ok(value) => toml_document(text@) == Ok::<TomlModel, Seq<char>>(toml_model(value)),
            Err(reason) => toml_document(text@) == Err::<TomlModel, Seq<char>>(reason@),
        },
{
    match toml::from_str::<toml::Value>(text) {
        Ok(value) => Ok(value),
        Err(error) => Err(error.message().to_string()),
    }
}

/// `toml::to_string` of a `Value`: the document written for a plain value,
/// or, where `toml` refuses to write it, the text of its error. What is
/// written depends on nothing but the strings, integers, arrays and tables
/// of the value and their order.
#[verifier::external_body]
pub(crate) fn toml_to_string(document: &toml::Value) -> (text: Result<String, String>)
    requires
        toml_model(*document).is_plain(),
    ensures
        match text {
            Ok(text) => toml_text(toml_model(*document)) == Ok::<Seq<char>, Seq<char>>(text@),
            Err(reason) => toml_text(toml_model(*document)) == Err::<Seq<char>, Seq<char>>(
                reason@,
            ),
        },
{
    match toml::to_string(document) {
        Ok(text) => Ok(text),
        Err(error) => Err(error.to_string()),
    }
}

/// `Value::get` with a string index: the value of a table under `key`, and
/// nothing for a key that the table lacks or a value that is no table.
#[verifier::external_body]
pub(crate) fn toml_get<'a>(value: &'a toml::Value, key: &str) -> (member: Option<&'a toml::Value>)
    ensures
        match member {
            Some(member) => toml_model(*value).member(key@) == Some(toml_model(*member)),
            None => toml_model(*value).member(key@) is None,
        },
{
    value.get(key)
}

/// `Value::as_array`: the elements of an array in their order, and nothing
/// for a value that is no array.
#[verifier::external_body]
pub(crate) fn toml_as_array(value: &toml::Value) -> (elements: Option<&Vec<toml::Value>>)
    ensures
        match elements {
            Some(elements) => toml_model(*value).elements() == Some(toml_models(elements@)),
            None => toml_model(*value).elements() is None,
        },
{
    value.as_array()
}

/// `Value::as_str`: the characters of a string, and nothing for a value
/// that is no string.
#[verifier::external_body]
pub(crate) fn toml_as_str(value: &toml::Value) -> (text: Option<&str>)
    ensures
        match text {
            Some(text) => toml_model(*value).text() == Some(text@),
            None => toml_model(*value).text() is None,
        },
{
    value.as_str()
}

/// `Value::as_integer`: the value of an integer, and nothing for a value
/// that is no integer.
#[verifier::external_body]
pub(crate) fn toml_as_integer(value: &toml::Value) -> (integer: Option<i64>)
    ensures
        match integer {
            Some(integer) => toml_model(*value).integer() == Some(integer as int),
            None => toml_model(*value).integer() is None,
        },
{
    value.as_integer()
}

/// `Value::String`: the string of the characters of `text`.
#[verifier::external_body]
pub(crate) fn toml_string(text: String) -> (value: toml::Value)
    ensures
        toml_model(value) == TomlModel::Text(text@),
{
    toml::Value::String(text)
}

/// `Value::Integer`: the integer `integer`.
#[verifier::external_body]
pub(crate) fn toml_integer(integer: i64) -> (value: toml::Value)
    ensures
        toml_model(value) == TomlModel::Integer(integer as int),
{
    toml::Value::Integer(integer)
}

/// `Value::Array`: the array of `elements` in their order.
#[verifier::external_body]
pub(crate) fn toml_array(elements: Vec<toml::Value>) -> (value: toml::Value)
    ensures
        toml_model(value) == TomlModel::Array(toml_models(elements@)),
{
    toml::Value::Array(elements)
}

/// `Value::Table` of the `Map` collected from `entries`: the table of
/// these entries in their order, given that no key comes twice.
#[verifier::external_body]
pub(crate) fn toml_table(entries: Vec<(String, toml::Value)>) -> (value: toml::Value)
    requires
        distinct_keys(toml_entries(entries@)),
    ensures
        toml_model(value) == TomlModel::Table(toml_entries(entries@)),
{
    toml::Value::Table(entries.into_iter().collect())
}

} // verus!
