//! What serde_json's values hold, as mathematical values, and the contracts of
//! the serde_json functions that the library calls.

use vstd::prelude::*;

verus! {

/// `serde_json::Value`, carried opaquely; `value_model` says what it holds.
#[verifier::external_type_specification]
#[verifier::external_body]
pub struct ExValue(serde_json::Value);

/// `serde_json::Map`, carried opaquely; `object_model` says what it holds.
#[verifier::external_type_specification]
#[verifier::external_body]
#[verifier::reject_recursive_types(K)]
#[verifier::reject_recursive_types(V)]
pub struct ExJsonMap<K, V>(serde_json::Map<K, V>);

/// `serde_json::Number`, carried opaquely; `number_model` says what it holds.
#[verifier::external_type_specification]
#[verifier::external_body]
pub struct ExNumber(serde_json::Number);

/// `serde_json::Error`, the error of decoding or encoding JSON.
#[verifier::external_type_specification]
#[verifier::external_body]
pub struct ExJsonError(serde_json::Error);

/// A JSON number as serde_json holds it: an integer in the range of `i64` or
/// `u64`, or a finite float, given by its IEEE-754 bit pattern.
pub enum NumberModel {
    Int(int),
    Float(u64),
}

/// A JSON value.
pub enum JsonModel {
    Null,
    Bool(bool),
    Number(NumberModel),
    Str(Seq<char>),
    Array(Seq<JsonModel>),
    Object(Map<Seq<char>, JsonModel>),
}

/// A JSON object: member names to values.
pub type ObjectModel = Map<Seq<char>, JsonModel>;

/// What a `serde_json::Value` holds.
pub uninterp spec fn value_model(v: serde_json::Value) -> JsonModel;

/// What a `serde_json::Map` holds.
pub uninterp spec fn object_model(m: serde_json::Map<String, serde_json::Value>) -> Map<Seq<char>, JsonModel>;

/// What a `serde_json::Number` holds.
pub uninterp spec fn number_model(n: serde_json::Number) -> NumberModel;

/// The value that JSON text decodes to, or `None` where it is not JSON.
pub uninterp spec fn json_decoded(text: Seq<char>) -> Option<JsonModel>;

/// The compact JSON text of an object.
pub uninterp spec fn json_encoded(object: Map<Seq<char>, JsonModel>) -> Seq<char>;

/// The `i64` that a JSON value reads as: an integer within `i64`'s range.
pub open spec fn as_i64_spec(v: JsonModel) -> Option<i64> {
    match v {
        JsonModel::Number(NumberModel::Int(i)) => if i64::MIN <= i <= i64::MAX {
            Some(i as i64)
        } else {
            None
        },
        _ => None,
    }
}

/// Relies on `serde_json::Map::new`: an empty map.
pub assume_specification[ serde_json::Map::<String, serde_json::Value>::new ]() -> (r: serde_json::Map<String, serde_json::Value>)
    ensures
        object_model(r) =~= Map::empty(),
;

/// Relies on `serde_json::Map::insert`: the key now maps to the value, and
/// the value it replaced, if any, is returned.
pub assume_specification[ serde_json::Map::<String, serde_json::Value>::insert ](
    m: &mut serde_json::Map<String, serde_json::Value>,
    k: String,
    v: serde_json::Value,
) -> (r: Option<serde_json::Value>)
    ensures
        object_model(*final(m)) == object_model(*old(m)).insert(k@, value_model(v)),
        match r {
            Some(prev) => object_model(*old(m)).contains_key(k@) && value_model(prev) == object_model(*old(m))[k@],
            None => !object_model(*old(m)).contains_key(k@),
        },
;

/// Relies on `Clone` for `serde_json::Map`: a map with the same entries.
pub assume_specification[ <serde_json::Map<String, serde_json::Value> as Clone>::clone ](
    m: &serde_json::Map<String, serde_json::Value>,
) -> (r: serde_json::Map<String, serde_json::Value>)
    ensures
        object_model(r) == object_model(*m),
;

/// Relies on `Clone` for `serde_json::Number`: the same number.
pub assume_specification[ <serde_json::Number as Clone>::clone ](n: &serde_json::Number) -> (r: serde_json::Number)
    ensures
        number_model(r) == number_model(*n),
;

/// Relies on `From<u64>` for `serde_json::Value`: the integer as a JSON number.
pub assume_specification[ <serde_json::Value as From<u64>>::from ](n: u64) -> (r: serde_json::Value)
    ensures
        value_model(r) == JsonModel::Number(NumberModel::Int(n as int)),
;

/// Relies on `From<String>` for `serde_json::Value`: the string as a JSON string.
pub assume_specification[ <serde_json::Value as From<String>>::from ](s: String) -> (r: serde_json::Value)
    ensures
        value_model(r) == JsonModel::Str(s@),
;

/// Relies on `serde_json::Value::as_object`: the map of an object, else `None`.
pub assume_specification[ serde_json::Value::as_object ](v: &serde_json::Value) -> (r: Option<&serde_json::Map<String, serde_json::Value>>)
    ensures
        match value_model(*v) {
            JsonModel::Object(o) => r matches Some(m) && object_model(*m) == o,
            _ => r is None,
        },
;

/// Relies on `serde_json::Value::as_array`: the items of an array, else `None`.
pub assume_specification[ serde_json::Value::as_array ](v: &serde_json::Value) -> (r: Option<&Vec<serde_json::Value>>)
    ensures
        match value_model(*v) {
            JsonModel::Array(items) => r matches Some(a) && a@.len() == items.len()
                && forall|i: int| 0 <= i < items.len() ==> value_model(#[trigger] a@[i]) == items[i],
            _ => r is None,
        },
;

/// Relies on `serde_json::Value::as_str`: the text of a string, else `None`.
pub assume_specification[ serde_json::Value::as_str ](v: &serde_json::Value) -> (r: Option<&str>)
    ensures
        match value_model(*v) {
            JsonModel::Str(s) => r matches Some(t) && t@ == s,
            _ => r is None,
        },
;

/// Relies on `serde_json::Value::as_bool`: the value of a boolean, else `None`.
pub assume_specification[ serde_json::Value::as_bool ](v: &serde_json::Value) -> (r: Option<bool>)
    ensures
        match value_model(*v) {
            JsonModel::Bool(b) => r == Some(b),
            _ => r is None,
        },
;

/// Relies on `serde_json::Value::as_i64` and `Number::as_i64`: an integer
/// within `i64`'s range, else `None` (floats included).
pub assume_specification[ serde_json::Value::as_i64 ](v: &serde_json::Value) -> (r: Option<i64>)
    ensures
        r == as_i64_spec(value_model(*v)),
;

/// Relies on `serde_json::Value::as_number`: the number, else `None`.
pub assume_specification[ serde_json::Value::as_number ](v: &serde_json::Value) -> (r: Option<&serde_json::Number>)
    ensures
        match value_model(*v) {
            JsonModel::Number(n) => r matches Some(x) && number_model(*x) == n,
            _ => r is None,
        },
;

/// Relies on `serde_json::Value::is_null`: whether the value is `null`.
pub assume_specification[ serde_json::Value::is_null ](v: &serde_json::Value) -> (r: bool)
    ensures
        r == (value_model(*v) == JsonModel::Null),
;

/// Relies on `serde_json::Map::get`: the value stored under `key`, if any.
#[verifier::external_body]
pub(crate) fn object_get<'a>(m: &'a serde_json::Map<String, serde_json::Value>, key: &str) -> (r: Option<&'a serde_json::Value>)
    ensures
        match r {
            Some(v) => object_model(*m).contains_key(key@) && value_model(*v) == object_model(*m)[key@],
            None => !object_model(*m).contains_key(key@),
        },
{
    m.get(key)
}

/// Relies on `serde_json::from_str` into a `serde_json::Value`: the value
/// that the text decodes to, or an error where it is not JSON.
#[verifier::external_body]
pub(crate) fn decode_json(text: &str) -> (r: Result<serde_json::Value, serde_json::Error>)
    ensures
        match r {
            Ok(v) => json_decoded(text@) == Some(value_model(v)),
            Err(_) => json_decoded(text@) is None,
        },
{
    serde_json::from_str(text)
}

/// Relies on `serde_json::to_string` of a map: its compact JSON text. For a
/// map from strings to values it always succeeds: the keys are strings, the
/// `Serialize` impl of `Value` raises no error, and the writer is a `Vec`.
#[verifier::external_body]
pub(crate) fn encode_json_object(m: &serde_json::Map<String, serde_json::Value>) -> (r: Result<String, serde_json::Error>)
    ensures
        r is Ok,
        r matches Ok(text) ==> text@ == json_encoded(object_model(*m)),
{
    serde_json::to_string(m)
}

/// Relies on the `Display` impl of `serde_json::Error`, which describes the
/// error and where in the input it was found.
#[verifier::external_body]
pub(crate) fn json_error_text(e: &serde_json::Error) -> (r: String) {
    e.to_string()
}

} // verus!
