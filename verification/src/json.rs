//! JSON documents: a mathematical model of what a document holds, and the
//! contracts under which this crate uses `serde_json` to read, build, parse
//! and print them.
//!
//! Nothing below is proved about `serde_json` itself. Each contract restates
//! what the crate's source does, in terms of the model, and the rest of the
//! library is verified against these statements.

use crate::entries::enumerates;
use serde_json::Value;
use vstd::prelude::*;

verus! {

/// A JSON number as a mathematical value.
pub enum JsonNumber {
    /// A number that `serde_json` holds as an integer: any whole number
    /// from `i64::MIN` up to `u64::MAX` that was written without a fraction
    /// or an exponent.
    Integer(int),
    /// A number that `serde_json` holds as a double, named by the bit
    /// pattern of that double.
    Real(u64),
}

/// What a JSON document holds.
pub enum Json {
    Null,
    Bool(bool),
    Number(JsonNumber),
    String(Seq<char>),
    Array(Seq<Json>),
    Object(Map<Seq<char>, Json>),
}

impl Json {
    /// The member stored under `key`, if this is an object that has one.
    pub open spec fn member(self, key: Seq<char>) -> Option<Json> {
        match self {
            Json::Object(members) => if members.contains_key(key) {
                Some(members[key])
            } else {
                None
            },
            _ => None,
        }
    }

    /// The element at `index`, if this is an array that is long enough.
    pub open spec fn item(self, index: int) -> Option<Json> {
        match self {
            Json::Array(items) => if 0 <= index < items.len() {
                Some(items[index])
            } else {
                None
            },
            _ => None,
        }
    }
}

/// An opaque `serde_json` document.
#[verifier::external_type_specification]
#[verifier::external_body]
pub struct ExValue(Value);

/// An opaque `serde_json` object: a collection of members keyed by name.
#[verifier::external_type_specification]
#[verifier::external_body]
#[verifier::reject_recursive_types(K)]
#[verifier::reject_recursive_types(V)]
pub struct ExMap<K, V>(serde_json::Map<K, V>);

/// What a `serde_json::Value` holds. The functions of `serde_json` that this
/// crate calls are all described by what they do to this content.
pub uninterp spec fn json_model(value: Value) -> Json;

/// The members that a `serde_json::Map` holds, each under its key.
pub uninterp spec fn object_members(object: serde_json::Map<String, Value>) -> Map<Seq<char>, Json>;

/// The document that `serde_json::from_str` reads from `text`, or `None`
/// where it rejects the text.
pub uninterp spec fn json_of_text(text: Seq<char>) -> Option<Json>;

/// The compact text that `serde_json` prints for a document.
pub uninterp spec fn text_of_json(document: Json) -> Seq<char>;

/// The models of a sequence of documents, in order.
pub open spec fn json_models(values: Seq<Value>) -> Seq<Json> {
    values.map_values(|value: Value| json_model(value))
}

/// `serde_json::from_str` at type `Value`: it accepts exactly the texts
/// that are one JSON document, and hands back that document.
#[verifier::external_body]
pub(crate) fn parse_json(text: &str) -> (parsed: Result<Value, serde_json::Error>)
    ensures
        match parsed {
            Ok(value) => json_of_text(text@) == Some(json_model(value)),
            Err(_) => json_of_text(text@) is None,
        },
{
    serde_json::from_str::<Value>(text)
}

/// `Value`'s `Display`, which prints the compact form of the document. The
/// members of an object are printed in the order of their keys, so that the
/// text depends on nothing but what the document holds.
#[verifier::external_body]
pub(crate) fn print_json(value: &Value) -> (text: String)
    ensures
        text@ == text_of_json(json_model(*value)),
{
    value.to_string()
}

/// The variant `Value::Null`.
#[verifier::external_body]
pub(crate) fn json_null() -> (value: Value)
    ensures
        json_model(value) == Json::Null,
{
    Value::Null
}

/// The variant `Value::Bool`.
#[verifier::external_body]
pub(crate) fn json_bool(flag: bool) -> (value: Value)
    ensures
        json_model(value) == Json::Bool(flag),
{
    Value::Bool(flag)
}

/// `Value::from` on a `usize`, which stores the number as the whole number
/// it is.
#[verifier::external_body]
pub(crate) fn json_unsigned(n: usize) -> (value: Value)
    ensures
        json_model(value) == Json::Number(JsonNumber::Integer(n as int)),
{
    Value::from(n)
}

/// The variant `Value::String`.
#[verifier::external_body]
pub(crate) fn json_string(text: String) -> (value: Value)
    ensures
        json_model(value) == Json::String(text@),
{
    Value::String(text)
}

/// The variant `Value::Array`.
#[verifier::external_body]
pub(crate) fn json_array(items: Vec<Value>) -> (value: Value)
    ensures
        json_model(value) == Json::Array(json_models(items@)),
{
    Value::Array(items)
}

/// The variant `Value::Object`.
#[verifier::external_body]
pub(crate) fn json_object(members: serde_json::Map<String, Value>) -> (value: Value)
    ensures
        json_model(value) == Json::Object(object_members(members)),
{
    Value::Object(members)
}

/// `Value::is_null`: whether the document is `null`.
pub assume_specification[ Value::is_null ](value: &Value) -> (null: bool)
    ensures
        null == (json_model(*value) is Null),
;

/// `Value::as_bool`: the truth value that the document is, if it is one.
pub assume_specification[ Value::as_bool ](value: &Value) -> (flag: Option<bool>)
    ensures
        match flag {
            Some(flag) => json_model(*value) == Json::Bool(flag),
            None => !(json_model(*value) is Bool),
        },
;

/// `Value::as_u64`: the number that the document is, if it is a number that
/// is held as an integer and is not negative.
pub assume_specification[ Value::as_u64 ](value: &Value) -> (n: Option<u64>)
    ensures
        match n {
            Some(n) => json_model(*value) == Json::Number(JsonNumber::Integer(n as int)),
            None => !(json_model(*value) matches Json::Number(JsonNumber::Integer(i)) && i >= 0),
        },
;

/// `Value::is_number`: whether the document is a number of any kind.
pub assume_specification[ Value::is_number ](value: &Value) -> (number: bool)
    ensures
        number == (json_model(*value) is Number),
;

/// `Value::as_str`: the text that the document is, if it is a string.
pub assume_specification<'a>[ Value::as_str ](value: &'a Value) -> (text: Option<&'a str>)
    ensures
        match text {
            Some(text) => json_model(*value) == Json::String(text@),
            None => !(json_model(*value) is String),
        },
;

/// `Value::as_array`: the elements of the document, if it is an array.
pub assume_specification<'a>[ Value::as_array ](value: &'a Value) -> (items: Option<
    &'a Vec<Value>,
>)
    ensures
        match items {
            Some(items) => json_model(*value) == Json::Array(json_models(items@)),
            None => !(json_model(*value) is Array),
        },
;

/// `Value::as_object`: the members of the document, if it is an object.
pub assume_specification<'a>[ Value::as_object ](value: &'a Value) -> (members: Option<
    &'a serde_json::Map<String, Value>,
>)
    ensures
        match members {
            Some(members) => json_model(*value) == Json::Object(object_members(*members)),
            None => !(json_model(*value) is Object),
        },
;

/// `Value::clone`: a copy holds what the document holds.
pub assume_specification[ <Value as Clone>::clone ](value: &Value) -> (copy: Value)
    ensures
        json_model(copy) == json_model(*value),
;

/// `Map::clone`: a copy holds the members that the object holds.
pub assume_specification[ <serde_json::Map<String, Value> as Clone>::clone ](
    members: &serde_json::Map<String, Value>,
) -> (copy: serde_json::Map<String, Value>)
    ensures
        object_members(copy) == object_members(*members),
;

/// `Map::new`: an object without members.
pub assume_specification[ serde_json::Map::<String, Value>::new ]() -> (created: serde_json::Map<
    String,
    Value,
>)
    ensures
        forall|key: Seq<char>| !object_members(created).contains_key(key),
;

/// `Map::insert`: the object then holds `v` under `k`, in place of what it
/// held there before, which is handed back; its other members stay.
pub assume_specification[ serde_json::Map::<String, Value>::insert ](
    members: &mut serde_json::Map<String, Value>,
    k: String,
    v: Value,
) -> (replaced: Option<Value>)
    ensures
        object_members(*final(members)) == object_members(*old(members)).insert(
            k@,
            json_model(v),
        ),
        match replaced {
            Some(previous) => object_members(*old(members)).contains_key(k@) && json_model(
                previous,
            ) == object_members(*old(members))[k@],
            None => !object_members(*old(members)).contains_key(k@),
        },
;

/// `Map::get` with a string key: the member stored under `key`, if any.
#[verifier::external_body]
pub(crate) fn find_member<'a>(members: &'a serde_json::Map<String, Value>, key: &str) -> (found:
    Option<&'a Value>)
    ensures
        match found {
            Some(value) => object_members(*members).contains_key(key@) && json_model(*value)
                == object_members(*members)[key@],
            None => !object_members(*members).contains_key(key@),
        },
{
    members.get(key)
}

/// `Map::keys`, collected: every key of the object exactly once, in the
/// order in which the object walks them.
#[verifier::external_body]
pub(crate) fn member_names(members: &serde_json::Map<String, Value>) -> (names: Vec<String>)
    ensures
        enumerates(names@, object_members(*members)),
{
    members.keys().cloned().collect()
}

} // verus!
