//! JSON documents as `serde_json` parses them, seen through a mathematical
//! model.
//!
//! Parsing is left to `serde_json`; the functions here only say, over
//! [`JsonModel`], what the parsed document holds.

use serde_json::Value;
use vstd::prelude::*;

verus! {

/// What a JSON document holds.
///
/// Numbers are kept only as far as the records of this crate read them: a
/// non-negative integer that fits in 64 bits is `Natural`, every other number
/// is `OtherNumber`.
pub enum JsonModel {
    Null,
    Bool(bool),
    Natural(u64),
    OtherNumber,
    Text(Seq<char>),
    Array(Seq<JsonModel>),
    Object(Map<Seq<char>, JsonModel>),
}

/// `serde_json::Value`, a parsed document. What it holds is [`document`].
#[verifier::external_type_specification]
#[verifier::external_body]
pub struct ExValue(serde_json::Value);

/// `serde_json::Error`, the reason why a text could not be parsed or
/// written. Nothing is read off it.
#[verifier::external_type_specification]
#[verifier::external_body]
pub struct ExJsonError(serde_json::Error);

/// `serde_json::Map`, the members of an object. What it holds is
/// [`members`].
#[verifier::external_type_specification]
#[verifier::external_body]
#[verifier::reject_recursive_types(K)]
#[verifier::reject_recursive_types(V)]
pub struct ExObject<K, V>(serde_json::Map<K, V>);

/// `serde_json::map::Iter`, an iterator over the members of an object.
#[verifier::external_type_specification]
#[verifier::external_body]
pub struct ExMembers<'a>(serde_json::map::Iter<'a>);

/// The document that `serde_json::from_str` reads from `text`, or `None`
/// where it reports an error.
pub uninterp spec fn parsed_document(text: Seq<char>) -> Option<JsonModel>;

/// The document that a `serde_json::Value` holds.
pub uninterp spec fn document(value: Value) -> JsonModel;

/// The members that a `serde_json::Map` holds, by their names.
pub uninterp spec fn members(object: serde_json::Map<String, Value>) -> Map<Seq<char>, JsonModel>;

/// The members that a `serde_json::map::Iter` has yet to give, by their
/// names.
pub uninterp spec fn remaining(iter: serde_json::map::Iter<'_>) -> Map<Seq<char>, JsonModel>;

/// The JSON string literal that `serde_json::to_string` writes for a text:
/// the text between double quotes, with the characters that JSON does not
/// take as they are written as escapes.
pub uninterp spec fn quoted(text: Seq<char>) -> Seq<char>;

/// `serde_json::from_str::<Value>`: parses one JSON document that spans the
/// whole text. The outcome is a function of the text alone.
#[verifier::external_body]
pub(crate) fn parse(text: &str) -> (r: Result<Value, serde_json::Error>)
    ensures
        match r {
            Ok(v) => parsed_document(text@) == Some(document(v)),
            Err(_) => parsed_document(text@) is None,
        },
{
    serde_json::from_str::<Value>(text)
}

/// `serde_json::to_string` on a string: the text as a JSON string literal.
/// The literal is a function of the text alone.
#[verifier::external_body]
pub(crate) fn quote(text: &str) -> (r: Result<String, serde_json::Error>)
    ensures
        r matches Ok(literal) ==> literal@ == quoted(text@),
{
    serde_json::to_string(text)
}

/// `Value::get` with a string key: the member of that name where the value
/// is an object that has one, `None` for every other value.
#[verifier::external_body]
pub(crate) fn member<'a>(value: &'a Value, key: &str) -> (r: Option<&'a Value>)
    ensures
        match r {
            Some(m) => document(*value).field(key@) == Some(document(*m)),
            None => document(*value).field(key@) is None,
        },
{
    value.get(key)
}

/// `Value::is_null`: whether the value is `null`.
pub assume_specification[ Value::is_null ](value: &Value) -> (r: bool)
    ensures
        r == (document(*value) is Null),
;

/// `Value::as_bool`: the truth value where the value is a boolean.
pub assume_specification[ Value::as_bool ](value: &Value) -> (r: Option<bool>)
    ensures
        r == document(*value).boolean(),
;

/// `Value::as_u64`: the number where the value is a non-negative integer
/// that fits in 64 bits.
pub assume_specification[ Value::as_u64 ](value: &Value) -> (r: Option<u64>)
    ensures
        r == document(*value).natural(),
;

/// `Value::as_str`: the text where the value is a string.
pub assume_specification<'a>[ Value::as_str ](value: &'a Value) -> (r: Option<&'a str>)
    ensures
        match r {
            Some(s) => document(*value).text() == Some(s@),
            None => document(*value).text() is None,
        },
;

/// `Value::as_array`: the elements where the value is an array.
pub assume_specification<'a>[ Value::as_array ](value: &'a Value) -> (r: Option<&'a Vec<Value>>)
    ensures
        match r {
            Some(items) => document(*value).elements() == Some(documents(items@)),
            None => document(*value).elements() is None,
        },
;

/// `Value::as_object`: the members where the value is an object.
pub assume_specification<'a>[ Value::as_object ](value: &'a Value) -> (r: Option<
    &'a serde_json::Map<String, Value>,
>)
    ensures
        match r {
            Some(object) => document(*value) == JsonModel::Object(members(*object)),
            None => !(document(*value) is Object),
        },
;

/// `Map::clone`: a map with the same members.
pub assume_specification[ <serde_json::Map<String, Value> as Clone>::clone ](
    object: &serde_json::Map<String, Value>,
) -> (r: serde_json::Map<String, Value>)
    ensures
        members(r) == members(*object),
;

/// `Map::iter`: an iterator that has every member of the map yet to give,
/// each of them once. Nothing is said of the order in which it gives them.
pub assume_specification<'a>[ serde_json::Map::<String, Value>::iter ](
    object: &'a serde_json::Map<String, Value>,
) -> (r: serde_json::map::Iter<'a>)
    ensures
        remaining(r) == members(*object),
;

/// The documents that a sequence of values holds.
pub open spec fn documents(values: Seq<Value>) -> Seq<JsonModel> {
    Seq::new(values.len(), |i: int| document(values[i]))
}

impl JsonModel {
    /// The member `key` of an object; `None` for a value that is no object
    /// or has no such member.
    pub open spec fn field(self, key: Seq<char>) -> Option<JsonModel> {
        match self {
            JsonModel::Object(fields) => if fields.dom().contains(key) {
                Some(fields[key])
            } else {
                None
            },
            _ => None,
        }
    }

    /// The number, where the value is a non-negative integer that fits in
    /// 64 bits.
    pub open spec fn natural(self) -> Option<u64> {
        match self {
            JsonModel::Natural(n) => Some(n),
            _ => None,
        }
    }

    /// The text, where the value is a string.
    pub open spec fn text(self) -> Option<Seq<char>> {
        match self {
            JsonModel::Text(t) => Some(t),
            _ => None,
        }
    }

    /// The truth value, where the value is a boolean.
    pub open spec fn boolean(self) -> Option<bool> {
        match self {
            JsonModel::Bool(b) => Some(b),
            _ => None,
        }
    }

    /// The elements, where the value is an array.
    pub open spec fn elements(self) -> Option<Seq<JsonModel>> {
        match self {
            JsonModel::Array(items) => Some(items),
            _ => None,
        }
    }

    /// The member `key` of an object, unless it is `null`: a member that
    /// may be left out says the same by being `null`.
    pub open spec fn optional_field(self, key: Seq<char>) -> Option<JsonModel> {
        match self.field(key) {
            Some(JsonModel::Null) => None,
            other => other,
        }
    }

    /// The text of a member that may be left out: `Some(None)` where it is
    /// left out or `null`, `None` where it holds anything but a string.
    pub open spec fn optional_text_field(self, key: Seq<char>) -> Option<Option<Seq<char>>> {
        match self.optional_field(key) {
            None => Some(None),
            Some(m) => match m.text() {
                Some(t) => Some(Some(t)),
                None => None,
            },
        }
    }

    /// The number held by the member `key` of an object.
    pub open spec fn natural_field(self, key: Seq<char>) -> Option<u64> {
        match self.field(key) {
            Some(m) => m.natural(),
            None => None,
        }
    }

    /// The number held by the member `key` of an object, where it is within
    /// the range of `usize`.
    pub open spec fn size_field(self, key: Seq<char>) -> Option<usize> {
        match self.natural_field(key) {
            Some(n) => if n <= usize::MAX {
                Some(n as usize)
            } else {
                None
            },
            None => None,
        }
    }

    /// The elements of the array held by the member `key` of an object.
    pub open spec fn list_field(self, key: Seq<char>) -> Option<Seq<JsonModel>> {
        match self.field(key) {
            Some(m) => m.elements(),
            None => None,
        }
    }

    /// The members of the object held by the member `key` of an object.
    pub open spec fn object_field(self, key: Seq<char>) -> Option<Map<Seq<char>, JsonModel>> {
        match self.field(key) {
            Some(JsonModel::Object(fields)) => Some(fields),
            _ => None,
        }
    }

    /// The text held by the member `key` of an object.
    pub open spec fn text_field(self, key: Seq<char>) -> Option<Seq<char>> {
        match self.field(key) {
            Some(m) => m.text(),
            None => None,
        }
    }
}

/// The member `key` of an object, unless it is `null`.
pub fn optional_member<'a>(value: &'a Value, key: &str) -> (r: Option<&'a Value>)
    ensures
        match r {
            Some(m) => document(*value).optional_field(key@) == Some(document(*m)),
            None => document(*value).optional_field(key@) is None,
        },
{
    match member(value, key) {
        Some(m) => if m.is_null() {
            None
        } else {
            Some(m)
        },
        None => None,
    }
}

/// The text of a member that may be left out.
pub fn optional_text_member<'a>(value: &'a Value, key: &str) -> (r: Option<Option<&'a str>>)
    ensures
        match r {
            None => document(*value).optional_text_field(key@) is None,
            Some(None) => document(*value).optional_text_field(key@) == Some(None::<Seq<char>>),
            Some(Some(t)) => document(*value).optional_text_field(key@) == Some(Some(t@)),
        },
{
    match optional_member(value, key) {
        None => Some(None),
        Some(m) => match m.as_str() {
            Some(t) => Some(Some(t)),
            None => None,
        },
    }
}

/// The number held by the member `key` of an object.
pub fn natural_member(value: &Value, key: &str) -> (r: Option<u64>)
    ensures
        r == document(*value).natural_field(key@),
{
    match member(value, key) {
        Some(m) => m.as_u64(),
        None => None,
    }
}

/// The number held by the member `key` of an object, where it is within
/// the range of `usize`.
pub fn size_member(value: &Value, key: &str) -> (r: Option<usize>)
    ensures
        r == document(*value).size_field(key@),
{
    match natural_member(value, key) {
        Some(n) => if n <= usize::MAX as u64 {
            Some(n as usize)
        } else {
            None
        },
        None => None,
    }
}

/// The elements of the array held by the member `key` of an object.
pub fn list_member<'a>(value: &'a Value, key: &str) -> (r: Option<&'a Vec<Value>>)
    ensures
        match r {
            Some(items) => document(*value).list_field(key@) == Some(documents(items@)),
            None => document(*value).list_field(key@) is None,
        },
{
    match member(value, key) {
        Some(m) => m.as_array(),
        None => None,
    }
}

/// The members of the object held by the member `key` of an object.
pub fn object_member<'a>(value: &'a Value, key: &str) -> (r: Option<
    &'a serde_json::Map<String, Value>,
>)
    ensures
        match r {
            Some(object) => document(*value).object_field(key@) == Some(members(*object)),
            None => document(*value).object_field(key@) is None,
        },
{
    match member(value, key) {
        Some(m) => m.as_object(),
        None => None,
    }
}

/// The text held by the member `key` of an object.
pub fn text_member<'a>(value: &'a Value, key: &str) -> (r: Option<&'a str>)
    ensures
        match r {
            Some(t) => document(*value).text_field(key@) == Some(t@),
            None => document(*value).text_field(key@) is None,
        },
{
    match member(value, key) {
        Some(m) => m.as_str(),
        None => None,
    }
}

} // verus!
