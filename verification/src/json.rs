//! Mathematical model of JSON documents, and the trusted boundary to the
//! `serde_json` crate that decodes, encodes and stores them.
//!
//! Verified code never looks inside a `serde_json::Value`; it reads and
//! builds one only through the wrappers below, whose contracts are stated
//! over the model type [`JsonV`].

use vstd::prelude::*;

verus! {

/// Model of one JSON document.
///
/// A JSON number that is a signed 64-bit integer (or an unsigned one, which
/// the model widens) is `Int`.  Any other number — fractional or exponent
/// notation — is `Num`, carrying an opaque tag (conceptually the bit pattern
/// of the stored floating-point value) so that distinct numbers stay
/// distinct in the model.
pub enum JsonV {
    Null,
    Bool(bool),
    Int(int),
    Num(int),
    Str(Seq<char>),
    Arr(Seq<JsonV>),
    Obj(Map<Seq<char>, JsonV>),
}

/// Field lookup on a JSON object; `None` for a missing key or a non-object.
pub open spec fn jget(j: JsonV, key: Seq<char>) -> Option<JsonV> {
    match j {
        JsonV::Obj(m) => if m.contains_key(key) {
            Some(m[key])
        } else {
            None
        },
        _ => None,
    }
}

/// The characters of a JSON string value; `None` otherwise.
pub open spec fn jstr(j: JsonV) -> Option<Seq<char>> {
    match j {
        JsonV::Str(s) => Some(s),
        _ => None,
    }
}

/// The value of a JSON boolean; `None` otherwise.
pub open spec fn jbool(j: JsonV) -> Option<bool> {
    match j {
        JsonV::Bool(b) => Some(b),
        _ => None,
    }
}

/// A JSON integer that fits a signed 64-bit value; `None` otherwise.
pub open spec fn jint64(j: JsonV) -> Option<int> {
    match j {
        JsonV::Int(i) => if i64::MIN <= i <= i64::MAX {
            Some(i)
        } else {
            None
        },
        _ => None,
    }
}

/// Whether the value is any JSON number.
pub open spec fn jis_number(j: JsonV) -> bool {
    j is Int || j is Num
}

/// A string field of a JSON object; `None` if absent or not a string.
pub open spec fn jfield_str(j: JsonV, key: Seq<char>) -> Option<Seq<char>> {
    match jget(j, key) {
        Some(v) => jstr(v),
        None => None,
    }
}

/// A boolean field of a JSON object; `None` if absent or not a boolean.
pub open spec fn jfield_bool(j: JsonV, key: Seq<char>) -> Option<bool> {
    match jget(j, key) {
        Some(v) => jbool(v),
        None => None,
    }
}

/// A signed 64-bit integer field of a JSON object.
pub open spec fn jfield_int64(j: JsonV, key: Seq<char>) -> Option<int> {
    match jget(j, key) {
        Some(v) => jint64(v),
        None => None,
    }
}

/// `serde_json`'s JSON tree type, opaque to verified code.
#[verifier::external_type_specification]
#[verifier::external_body]
pub struct ExJsonValue(serde_json::Value);

/// The model of the JSON tree a `serde_json::Value` holds.
pub uninterp spec fn json_view(v: serde_json::Value) -> JsonV;

/// What `serde_json::from_str` decodes a line of text to: the model of the
/// parsed tree, or `None` when the text is not valid JSON.
pub uninterp spec fn parsed_json(s: Seq<char>) -> Option<JsonV>;

/// What `serde_json::to_string` renders a JSON tree as.  Object members are
/// stored in a deterministic (ordered-map) representation, so the text is a
/// function of the model alone.
pub uninterp spec fn json_text(j: JsonV) -> Seq<char>;

/// Relies on `serde_json::from_str::<Value>`: decodes one line of JSON text
/// into a tree, or reports the decoder's error text.
#[verifier::external_body]
pub(crate) fn json_from_str(s: &str) -> (r: Result<serde_json::Value, String>)
    ensures
        match r {
            Ok(v) => parsed_json(s@) == Some(json_view(v)),
            Err(_) => parsed_json(s@) is None,
        },
{
    match serde_json::from_str::<serde_json::Value>(s) {
        Ok(v) => Ok(v),
        Err(e) => Err(e.to_string()),
    }
}

/// Relies on `serde_json::to_string`: renders a JSON tree as compact text.
/// Serializing a `Value` cannot fail, since all its map keys are strings.
#[verifier::external_body]
pub(crate) fn json_to_text(v: &serde_json::Value) -> (r: String)
    ensures
        r@ == json_text(json_view(*v)),
{
    serde_json::to_string(v).expect("serializing a JSON value cannot fail")
}

/// Relies on `serde_json::Value::get`: looks a key up in a JSON object;
/// `None` on a missing key or a non-object.
#[verifier::external_body]
pub(crate) fn json_get<'a>(v: &'a serde_json::Value, key: &str) -> (r: Option<&'a serde_json::Value>)
    ensures
        match r {
            Some(c) => jget(json_view(*v), key@) == Some(json_view(*c)),
            None => jget(json_view(*v), key@) is None,
        },
{
    v.get(key)
}

/// Relies on `serde_json::Value::as_str`.
#[verifier::external_body]
pub(crate) fn json_as_str<'a>(v: &'a serde_json::Value) -> (r: Option<&'a str>)
    ensures
        match r {
            Some(s) => json_view(*v) == JsonV::Str(s@),
            None => !(json_view(*v) is Str),
        },
{
    v.as_str()
}

/// Relies on `serde_json::Value::as_i64`: the value of an integer that fits
/// a signed 64-bit representation.
#[verifier::external_body]
pub(crate) fn json_as_i64(v: &serde_json::Value) -> (r: Option<i64>)
    ensures
        match r {
            Some(i) => json_view(*v) == JsonV::Int(i as int),
            None => jint64(json_view(*v)) is None,
        },
{
    v.as_i64()
}

/// Relies on `serde_json::Value::as_bool`.
#[verifier::external_body]
pub(crate) fn json_as_bool(v: &serde_json::Value) -> (r: Option<bool>)
    ensures
        match r {
            Some(b) => json_view(*v) == JsonV::Bool(b),
            None => !(json_view(*v) is Bool),
        },
{
    v.as_bool()
}

/// Relies on `serde_json::Value::as_array`: the elements of a JSON array.
#[verifier::external_body]
pub(crate) fn json_as_array<'a>(v: &'a serde_json::Value) -> (r: Option<&'a Vec<serde_json::Value>>)
    ensures
        match r {
            Some(a) => {
                &&& json_view(*v) is Arr
                &&& json_view(*v)->Arr_0.len() == a@.len()
                &&& forall|i: int|
                    0 <= i < a@.len() ==> json_view(*v)->Arr_0[i] == json_view(#[trigger] a@[i])
            },
            None => !(json_view(*v) is Arr),
        },
{
    v.as_array()
}

/// Relies on `serde_json::Value::is_object`.
#[verifier::external_body]
pub(crate) fn json_is_object(v: &serde_json::Value) -> (r: bool)
    ensures
        r == (json_view(*v) is Obj),
{
    v.is_object()
}

/// Relies on `serde_json::Value::is_number`.
#[verifier::external_body]
pub(crate) fn json_is_number(v: &serde_json::Value) -> (r: bool)
    ensures
        r == jis_number(json_view(*v)),
{
    v.is_number()
}

/// Relies on `serde_json::Value::is_null`.
#[verifier::external_body]
pub(crate) fn json_is_null(v: &serde_json::Value) -> (r: bool)
    ensures
        r == (json_view(*v) is Null),
{
    v.is_null()
}

/// Relies on `serde_json::Value`'s `Clone` impl: a deep copy holds the same
/// tree.
pub assume_specification[ <serde_json::Value as Clone>::clone ](v: &serde_json::Value) -> (r:
    serde_json::Value)
    ensures
        json_view(r) == json_view(*v),
;

/// A fresh, empty JSON object (`serde_json::Value::Object`).
#[verifier::external_body]
pub(crate) fn json_object_new() -> (r: serde_json::Value)
    ensures
        json_view(r) == JsonV::Obj(Map::<Seq<char>, JsonV>::empty()),
{
    serde_json::Value::Object(serde_json::Map::new())
}

/// Relies on `serde_json::Map::insert`: sets one key of a JSON object,
/// replacing any earlier value under that key.
#[verifier::external_body]
pub(crate) fn json_insert(v: &mut serde_json::Value, key: &str, val: serde_json::Value)
    requires
        json_view(*old(v)) is Obj,
    ensures
        json_view(*final(v)) == JsonV::Obj(
            json_view(*old(v))->Obj_0.insert(key@, json_view(val)),
        ),
{
    if let serde_json::Value::Object(m) = v {
        m.insert(key.to_owned(), val);
    }
}

/// A JSON string value (`serde_json::Value::String`).
#[verifier::external_body]
pub(crate) fn json_string(s: &str) -> (r: serde_json::Value)
    ensures
        json_view(r) == JsonV::Str(s@),
{
    serde_json::Value::String(s.to_owned())
}

/// A JSON boolean value (`serde_json::Value::Bool`).
#[verifier::external_body]
pub(crate) fn json_bool_value(b: bool) -> (r: serde_json::Value)
    ensures
        json_view(r) == JsonV::Bool(b),
{
    serde_json::Value::Bool(b)
}

/// The JSON null value (`serde_json::Value::Null`).
#[verifier::external_body]
pub(crate) fn json_null_value() -> (r: serde_json::Value)
    ensures
        json_view(r) == JsonV::Null,
{
    serde_json::Value::Null
}

/// A JSON array value (`serde_json::Value::Array`) holding the given
/// elements in order.
#[verifier::external_body]
pub(crate) fn json_array_value(items: Vec<serde_json::Value>) -> (r: serde_json::Value)
    ensures
        json_view(r) == JsonV::Arr(items@.map_values(|x: serde_json::Value| json_view(x))),
{
    serde_json::Value::Array(items)
}

} // verus!
