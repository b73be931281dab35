//! The boundary to `serde_json`.
//!
//! Attribute maps are `serde_json` objects and attribute values are
//! `serde_json` values. The verifier cannot look inside either, so this
//! module gives each a mathematical model and states, for every call the
//! library makes into `serde_json`, what that call does to the model. These
//! statements are trusted, not proved; everything else in the crate is proved
//! from them.

use vstd::prelude::*;

verus! {

/// `serde_json::Value`, carried through verified code as an opaque value.
#[verifier::external_type_specification]
#[verifier::external_body]
pub struct ExJsonValue(serde_json::Value);

/// `serde_json::Map`, carried through verified code as an opaque value.
#[verifier::external_type_specification]
#[verifier::external_body]
#[verifier::reject_recursive_types(K)]
#[verifier::reject_recursive_types(V)]
pub struct ExJsonMap<K, V>(serde_json::Map<K, V>);

/// A generic JSON map.
pub type JsonMap = serde_json::Map<String, serde_json::Value>;

/// The mathematical model of a JSON value.
///
/// The model is faithful: `serde_json` takes two values for equal exactly
/// when their models are equal.
pub enum JsonModel {
    /// The JSON `null`.
    Null,
    /// A JSON boolean.
    Bool(bool),
    /// A JSON number that is held as an integer.
    Integer(int),
    /// A JSON number that is held as a floating-point number, given by the
    /// bits of its double-precision form. Zero is given as positive zero
    /// whatever its sign, since `serde_json` takes the two zeros for equal.
    /// This library passes such numbers along but never makes or reads one.
    Float(u64),
    /// A JSON string.
    Text(Seq<char>),
    /// A JSON array.
    Array(Seq<JsonModel>),
    /// A JSON object.
    Object(Map<Seq<char>, JsonModel>),
}

/// What a JSON object holds: its keys, each with the model of its value.
pub type Entries = Map<Seq<char>, JsonModel>;

/// The model of a `serde_json::Value`.
pub uninterp spec fn json_model(value: serde_json::Value) -> JsonModel;

/// The entries of a `serde_json::Map`: one per key, with the model of the
/// value stored under it.
pub uninterp spec fn json_entries(map: serde_json::Map<String, serde_json::Value>) -> Entries;

/// The variant `serde_json::Value::Null`: the JSON `null`.
#[verifier::external_body]
pub(crate) fn json_null() -> (value: serde_json::Value)
    ensures
        json_model(value) == JsonModel::Null,
{
    serde_json::Value::Null
}

/// `serde_json::Value::from` on `()`, which serde_json documents as
/// converting `()` to `Value::Null`.
#[verifier::external_body]
pub(crate) fn json_from_unit() -> (value: serde_json::Value)
    ensures
        json_model(value) == JsonModel::Null,
{
    serde_json::Value::from(())
}

/// `serde_json::Value::from` on a `bool`: `Value::Bool` of it.
#[verifier::external_body]
pub(crate) fn json_from_bool(b: bool) -> (value: serde_json::Value)
    ensures
        json_model(value) == JsonModel::Bool(b),
{
    serde_json::Value::from(b)
}

/// `serde_json::Value::from` on a `u64`: the JSON number `n`.
#[verifier::external_body]
pub(crate) fn json_from_u64(n: u64) -> (value: serde_json::Value)
    ensures
        json_model(value) == JsonModel::Integer(n as int),
{
    serde_json::Value::from(n)
}

/// `serde_json::Value::from` on an `i64`: the JSON number `n`, sign
/// included. A number that is not negative is stored as `Value::from` stores
/// the `u64` of the same magnitude.
#[verifier::external_body]
pub(crate) fn json_from_i64(n: i64) -> (value: serde_json::Value)
    ensures
        json_model(value) == JsonModel::Integer(n as int),
{
    serde_json::Value::from(n)
}

/// `serde_json::Value::from` on a `&str`: `Value::String` of an owned copy.
#[verifier::external_body]
pub(crate) fn json_from_str(s: &str) -> (value: serde_json::Value)
    ensures
        json_model(value) == JsonModel::Text(s@),
{
    serde_json::Value::from(s)
}

/// `Clone::clone` of a `serde_json::Value`: the copy has the model of the
/// value it is made of.
pub assume_specification[ <serde_json::Value as Clone>::clone ](value: &serde_json::Value) -> (copy:
    serde_json::Value)
    ensures
        json_model(copy) == json_model(*value),
;

/// `Clone::clone` of a `serde_json::Map`: the copy has the entries of the
/// map it is made of.
pub assume_specification[ <serde_json::Map<String, serde_json::Value> as Clone>::clone ](
    map: &serde_json::Map<String, serde_json::Value>,
) -> (copy: serde_json::Map<String, serde_json::Value>)
    ensures
        json_entries(copy) == json_entries(*map),
;

/// `==` on two `serde_json::Map`s: they are equal exactly when they have the
/// same keys and hold equal values under each.
#[verifier::external_body]
pub(crate) fn json_map_eq(a: &JsonMap, b: &JsonMap) -> (equal: bool)
    ensures
        equal == (json_entries(*a) == json_entries(*b)),
{
    a == b
}

/// `serde_json::Map::new`: a map without entries.
#[verifier::external_body]
pub(crate) fn json_map_new() -> (map: JsonMap)
    ensures
        json_entries(map) == Entries::empty(),
{
    serde_json::Map::new()
}

/// `serde_json::Map::insert`: afterwards `key` maps to `value`, whether or
/// not it was present, and every other entry is as before. The call returns
/// the value that `key` had, if it had one.
#[verifier::external_body]
pub(crate) fn json_map_insert(map: &mut JsonMap, key: String, value: serde_json::Value) -> (previous:
    Option<serde_json::Value>)
    ensures
        json_entries(*final(map)) == json_entries(*old(map)).insert(key@, json_model(value)),
        previous is Some <==> json_entries(*old(map)).contains_key(key@),
        previous matches Some(p) ==> json_model(p) == json_entries(*old(map))[key@],
{
    map.insert(key, value)
}

} // verus!
