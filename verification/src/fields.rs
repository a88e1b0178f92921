//! Reading typed fields out of JSON objects.
//!
//! Every reader comes as a pair: a specification over the document model
//! that says what the field holds or which message reports its absence, and
//! an executable reader over `serde_json` values that is proved to agree
//! with it.

use crate::errors::{ApiError, ApiErrorView};
use crate::json::{find_member, json_model, json_models, object_members, Json, JsonNumber};
use crate::numeral::Numeral;
use serde_json::Value;
use vstd::prelude::*;

verus! {

/// The members of a JSON object, each under its key.
pub type Members = Map<Seq<char>, Json>;

/// The message that reports a required field as absent.
pub open spec fn missing_field(key: Seq<char>) -> Seq<char> {
    "missing field `"@ + key + "`"@
}

/// The message that reports a field as holding the wrong kind of value.
pub open spec fn invalid_field(key: Seq<char>) -> Seq<char> {
    "invalid type for field `"@ + key + "`"@
}

/// The message for a document that should have been an object and is not.
pub open spec fn expected_object() -> Seq<char> {
    "expected a JSON object"@
}

/// The message for a document that should have been an array and is not.
pub open spec fn expected_array() -> Seq<char> {
    "expected a JSON array"@
}

/// Whether `outcome` is the generic failure that carries `message`.
pub open spec fn failed_with<T>(outcome: Result<T, ApiError>, message: Seq<char>) -> bool {
    outcome matches Err(error) && error@ == ApiErrorView::GenericError(message)
}

/// The value of a field that has to be there.
pub open spec fn required_of(members: Members, key: Seq<char>) -> Result<Json, Seq<char>> {
    if members.contains_key(key) {
        Ok(members[key])
    } else {
        Err(missing_field(key))
    }
}

/// The value of a field that may be left out; `null` counts as left out.
pub open spec fn optional_of(members: Members, key: Seq<char>) -> Option<Json> {
    if members.contains_key(key) && !(members[key] is Null) {
        Some(members[key])
    } else {
        None
    }
}

/// A value read as text.
pub open spec fn text_of(value: Json, key: Seq<char>) -> Result<Seq<char>, Seq<char>> {
    match value {
        Json::String(text) => Ok(text),
        _ => Err(invalid_field(key)),
    }
}

/// A value read as a truth value.
pub open spec fn flag_of(value: Json, key: Seq<char>) -> Result<bool, Seq<char>> {
    match value {
        Json::Bool(flag) => Ok(flag),
        _ => Err(invalid_field(key)),
    }
}

/// A value read as a whole number from zero up to `max`.
pub open spec fn unsigned_of(value: Json, key: Seq<char>, max: int) -> Result<nat, Seq<char>> {
    match value {
        Json::Number(JsonNumber::Integer(n)) => if 0 <= n <= max {
            Ok(n as nat)
        } else {
            Err(invalid_field(key))
        },
        _ => Err(invalid_field(key)),
    }
}

/// A value read as a number of any kind.
pub open spec fn number_of(value: Json, key: Seq<char>) -> Result<JsonNumber, Seq<char>> {
    match value {
        Json::Number(number) => Ok(number),
        _ => Err(invalid_field(key)),
    }
}

/// Whether every document in `items` is a string.
pub open spec fn all_text(items: Seq<Json>) -> bool {
    forall|i: int| 0 <= i < items.len() ==> #[trigger] items[i] is String
}

/// The texts of a sequence of string documents.
pub open spec fn texts(items: Seq<Json>) -> Seq<Seq<char>> {
    items.map_values(|item: Json| item->String_0)
}

/// A value read as a list of texts.
pub open spec fn texts_of(value: Json, key: Seq<char>) -> Result<Seq<Seq<char>>, Seq<char>> {
    match value {
        Json::Array(items) => if all_text(items) {
            Ok(texts(items))
        } else {
            Err(invalid_field(key))
        },
        _ => Err(invalid_field(key)),
    }
}

/// A value read as an object.
pub open spec fn members_of(value: Json, key: Seq<char>) -> Result<Members, Seq<char>> {
    match value {
        Json::Object(members) => Ok(members),
        _ => Err(invalid_field(key)),
    }
}

/// A required field read as text.
pub open spec fn text_field(members: Members, key: Seq<char>) -> Result<Seq<char>, Seq<char>> {
    match required_of(members, key) {
        Ok(value) => text_of(value, key),
        Err(message) => Err(message),
    }
}

/// A field read as text where it is there.
pub open spec fn optional_text_field(members: Members, key: Seq<char>) -> Result<
    Option<Seq<char>>,
    Seq<char>,
> {
    match optional_of(members, key) {
        Some(value) => match text_of(value, key) {
            Ok(text) => Ok(Some(text)),
            Err(message) => Err(message),
        },
        None => Ok(None),
    }
}

/// A required field read as a truth value.
pub open spec fn flag_field(members: Members, key: Seq<char>) -> Result<bool, Seq<char>> {
    match required_of(members, key) {
        Ok(value) => flag_of(value, key),
        Err(message) => Err(message),
    }
}

/// A required field read as a whole number from zero up to `max`.
pub open spec fn unsigned_field(members: Members, key: Seq<char>, max: int) -> Result<
    nat,
    Seq<char>,
> {
    match required_of(members, key) {
        Ok(value) => unsigned_of(value, key, max),
        Err(message) => Err(message),
    }
}

/// A required field read as a number of any kind.
pub open spec fn number_field(members: Members, key: Seq<char>) -> Result<JsonNumber, Seq<char>> {
    match required_of(members, key) {
        Ok(value) => number_of(value, key),
        Err(message) => Err(message),
    }
}

/// A field read as a number of any kind where it is there.
pub open spec fn optional_number_field(members: Members, key: Seq<char>) -> Result<
    Option<JsonNumber>,
    Seq<char>,
> {
    match optional_of(members, key) {
        Some(value) => match number_of(value, key) {
            Ok(number) => Ok(Some(number)),
            Err(message) => Err(message),
        },
        None => Ok(None),
    }
}

/// A required field read as a list of texts.
pub open spec fn texts_field(members: Members, key: Seq<char>) -> Result<
    Seq<Seq<char>>,
    Seq<char>,
> {
    match required_of(members, key) {
        Ok(value) => texts_of(value, key),
        Err(message) => Err(message),
    }
}

/// A required field read as an object.
pub open spec fn members_field(members: Members, key: Seq<char>) -> Result<Members, Seq<char>> {
    match required_of(members, key) {
        Ok(value) => members_of(value, key),
        Err(message) => Err(message),
    }
}

/// The views of a sequence of strings.
pub open spec fn string_views(strings: Seq<String>) -> Seq<Seq<char>> {
    strings.map_values(|text: String| text@)
}

/// Builds the failure that reports `key` as absent.
pub fn missing(key: &str) -> (error: ApiError)
    ensures
        error@ == ApiErrorView::GenericError(missing_field(key@)),
{
    let message = "missing field `".to_owned().concat(key).concat("`");
    ApiError::GenericError(message)
}

/// Builds the failure that reports `key` as holding the wrong kind of value.
pub fn invalid(key: &str) -> (error: ApiError)
    ensures
        error@ == ApiErrorView::GenericError(invalid_field(key@)),
{
    let message = "invalid type for field `".to_owned().concat(key).concat("`");
    ApiError::GenericError(message)
}

/// Builds the failure that reports a document as not being an object.
pub fn not_an_object() -> (error: ApiError)
    ensures
        error@ == ApiErrorView::GenericError(expected_object()),
{
    ApiError::GenericError("expected a JSON object".to_owned())
}

/// Builds the failure that reports a document as not being an array.
pub fn not_an_array() -> (error: ApiError)
    ensures
        error@ == ApiErrorView::GenericError(expected_array()),
{
    ApiError::GenericError("expected a JSON array".to_owned())
}

/// Finds the member of a document under `key`, if the document is an object
/// that has one.
pub fn lookup_member<'a>(document: &'a Value, key: &str) -> (found: Option<&'a Value>)
    ensures
        match json_model(*document).member(key@) {
            Some(member) => found matches Some(value) && json_model(*value) == member,
            None => found is None,
        },
{
    match document.as_object() {
        Some(members) => find_member(members, key),
        None => None,
    }
}

/// Finds a field that has to be there.
pub fn required<'a>(members: &'a serde_json::Map<String, Value>, key: &str) -> (outcome: Result<
    &'a Value,
    ApiError,
>)
    ensures
        match required_of(object_members(*members), key@) {
            Ok(value) => outcome matches Ok(found) && json_model(*found) == value,
            Err(message) => failed_with(outcome, message),
        },
{
    match find_member(members, key) {
        Some(value) => Ok(value),
        None => Err(missing(key)),
    }
}

/// Finds a field that may be left out.
pub fn optional<'a>(members: &'a serde_json::Map<String, Value>, key: &str) -> (found: Option<
    &'a Value,
>)
    ensures
        match optional_of(object_members(*members), key@) {
            Some(value) => found matches Some(present) && json_model(*present) == value,
            None => found is None,
        },
{
    match find_member(members, key) {
        Some(value) => if value.is_null() {
            None
        } else {
            Some(value)
        },
        None => None,
    }
}

/// Reads a value as text.
pub fn read_text(value: &Value, key: &str) -> (outcome: Result<String, ApiError>)
    ensures
        match text_of(json_model(*value), key@) {
            Ok(text) => outcome matches Ok(read) && read@ == text,
            Err(message) => failed_with(outcome, message),
        },
{
    match value.as_str() {
        Some(text) => Ok(text.to_owned()),
        None => Err(invalid(key)),
    }
}

/// Reads a value as a truth value.
pub fn read_flag(value: &Value, key: &str) -> (outcome: Result<bool, ApiError>)
    ensures
        match flag_of(json_model(*value), key@) {
            Ok(flag) => outcome == Ok::<bool, ApiError>(flag),
            Err(message) => failed_with(outcome, message),
        },
{
    match value.as_bool() {
        Some(flag) => Ok(flag),
        None => Err(invalid(key)),
    }
}

/// Reads a value as a whole number that fits 64 bits.
pub fn read_u64(value: &Value, key: &str) -> (outcome: Result<u64, ApiError>)
    ensures
        match unsigned_of(json_model(*value), key@, u64::MAX as int) {
            Ok(n) => outcome == Ok::<u64, ApiError>(n as u64),
            Err(message) => failed_with(outcome, message),
        },
{
    match value.as_u64() {
        Some(n) => Ok(n),
        None => Err(invalid(key)),
    }
}

/// Reads a value as a whole number that fits a machine word.
pub fn read_usize(value: &Value, key: &str) -> (outcome: Result<usize, ApiError>)
    ensures
        match unsigned_of(json_model(*value), key@, usize::MAX as int) {
            Ok(n) => outcome == Ok::<usize, ApiError>(n as usize),
            Err(message) => failed_with(outcome, message),
        },
{
    match value.as_u64() {
        Some(n) => if n <= usize::MAX as u64 {
            Ok(n as usize)
        } else {
            Err(invalid(key))
        },
        None => Err(invalid(key)),
    }
}

/// Reads a value as a list of texts.
pub fn read_texts(value: &Value, key: &str) -> (outcome: Result<Vec<String>, ApiError>)
    ensures
        match texts_of(json_model(*value), key@) {
            Ok(list) => outcome matches Ok(read) && string_views(read@) == list,
            Err(message) => failed_with(outcome, message),
        },
{
    match value.as_array() {
        Some(items) => {
            let ghost models = json_models(items@);
            let mut read: Vec<String> = Vec::new();
            let mut i: usize = 0;
            while i < items.len()
                invariant
                    i <= items.len(),
                    models == json_models(items@),
                    json_model(*value) == Json::Array(models),
                    read@.len() == i,
                    forall|j: int| 0 <= j < i ==> #[trigger] models[j] is String,
                    forall|j: int| 0 <= j < i ==> (#[trigger] read@[j])@ == models[j]->String_0,
                decreases items.len() - i,
            {
                match items[i].as_str() {
                    Some(text) => {
                        read.push(text.to_owned());
                    },
                    None => {
                        assert(!(models[i as int] is String));
                        return Err(invalid(key));
                    },
                }
                i += 1;
            }
            assert(string_views(read@) =~= texts(models));
            Ok(read)
        },
        None => Err(invalid(key)),
    }
}

/// Reads a value as an object.
pub fn read_members<'a>(value: &'a Value, key: &str) -> (outcome: Result<
    &'a serde_json::Map<String, Value>,
    ApiError,
>)
    ensures
        match members_of(json_model(*value), key@) {
            Ok(members) => outcome matches Ok(read) && object_members(*read) == members,
            Err(message) => failed_with(outcome, message),
        },
{
    match value.as_object() {
        Some(members) => Ok(members),
        None => Err(invalid(key)),
    }
}

/// Reads a value as a number of any kind.
pub fn read_number(value: &Value, key: &str) -> (outcome: Result<Numeral, ApiError>)
    ensures
        match number_of(json_model(*value), key@) {
            Ok(number) => outcome matches Ok(read) && read@ == number,
            Err(message) => failed_with(outcome, message),
        },
{
    match Numeral::from_json(value) {
        Some(numeral) => Ok(numeral),
        None => Err(invalid(key)),
    }
}

/// Reads a required field as text.
pub fn read_text_field(members: &serde_json::Map<String, Value>, key: &str) -> (outcome: Result<
    String,
    ApiError,
>)
    ensures
        match text_field(object_members(*members), key@) {
            Ok(text) => outcome matches Ok(read) && read@ == text,
            Err(message) => failed_with(outcome, message),
        },
{
    read_text(required(members, key)?, key)
}

/// Reads a field as text where it is there.
pub fn read_optional_text_field(members: &serde_json::Map<String, Value>, key: &str) -> (outcome:
    Result<Option<String>, ApiError>)
    ensures
        match optional_text_field(object_members(*members), key@) {
            Ok(Some(text)) => outcome matches Ok(Some(read)) && read@ == text,
            Ok(None) => outcome matches Ok(None),
            Err(message) => failed_with(outcome, message),
        },
{
    match optional(members, key) {
        Some(value) => Ok(Some(read_text(value, key)?)),
        None => Ok(None),
    }
}

/// Reads a required field as a truth value.
pub fn read_flag_field(members: &serde_json::Map<String, Value>, key: &str) -> (outcome: Result<
    bool,
    ApiError,
>)
    ensures
        match flag_field(object_members(*members), key@) {
            Ok(flag) => outcome == Ok::<bool, ApiError>(flag),
            Err(message) => failed_with(outcome, message),
        },
{
    read_flag(required(members, key)?, key)
}

/// Reads a required field as a whole number that fits 64 bits.
pub fn read_u64_field(members: &serde_json::Map<String, Value>, key: &str) -> (outcome: Result<
    u64,
    ApiError,
>)
    ensures
        match unsigned_field(object_members(*members), key@, u64::MAX as int) {
            Ok(n) => outcome == Ok::<u64, ApiError>(n as u64),
            Err(message) => failed_with(outcome, message),
        },
{
    read_u64(required(members, key)?, key)
}

/// Reads a required field as a whole number that fits a machine word.
pub fn read_usize_field(members: &serde_json::Map<String, Value>, key: &str) -> (outcome: Result<
    usize,
    ApiError,
>)
    ensures
        match unsigned_field(object_members(*members), key@, usize::MAX as int) {
            Ok(n) => outcome == Ok::<usize, ApiError>(n as usize),
            Err(message) => failed_with(outcome, message),
        },
{
    read_usize(required(members, key)?, key)
}

/// Reads a required field as a number of any kind.
pub fn read_number_field(members: &serde_json::Map<String, Value>, key: &str) -> (outcome: Result<
    Numeral,
    ApiError,
>)
    ensures
        match number_field(object_members(*members), key@) {
            Ok(number) => outcome matches Ok(read) && read@ == number,
            Err(message) => failed_with(outcome, message),
        },
{
    read_number(required(members, key)?, key)
}

/// Reads a field as a number of any kind where it is there.
pub fn read_optional_number_field(members: &serde_json::Map<String, Value>, key: &str) -> (outcome:
    Result<Option<Numeral>, ApiError>)
    ensures
        match optional_number_field(object_members(*members), key@) {
            Ok(Some(number)) => outcome matches Ok(Some(read)) && read@ == number,
            Ok(None) => outcome matches Ok(None),
            Err(message) => failed_with(outcome, message),
        },
{
    match optional(members, key) {
        Some(value) => Ok(Some(read_number(value, key)?)),
        None => Ok(None),
    }
}

/// Reads a required field as a list of texts.
pub fn read_texts_field(members: &serde_json::Map<String, Value>, key: &str) -> (outcome: Result<
    Vec<String>,
    ApiError,
>)
    ensures
        match texts_field(object_members(*members), key@) {
            Ok(list) => outcome matches Ok(read) && string_views(read@) == list,
            Err(message) => failed_with(outcome, message),
        },
{
    read_texts(required(members, key)?, key)
}

/// Reads a required field as an object.
pub fn read_members_field<'a>(members: &'a serde_json::Map<String, Value>, key: &str) -> (outcome:
    Result<&'a serde_json::Map<String, Value>, ApiError>)
    ensures
        match members_field(object_members(*members), key@) {
            Ok(inner) => outcome matches Ok(read) && object_members(*read) == inner,
            Err(message) => failed_with(outcome, message),
        },
{
    read_members(required(members, key)?, key)
}

} // verus!
