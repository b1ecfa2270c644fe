//! The trusted boundary around `serde_json`: the payload of a dynamic
//! object is arbitrary JSON, which this crate carries opaquely and
//! never inspects beyond the envelope keys.

use vstd::prelude::*;

verus! {

#[verifier::external_type_specification]
#[verifier::external_body]
pub struct ExValue(serde_json::Value);

#[verifier::external_type_specification]
#[verifier::external_body]
#[verifier::reject_recursive_types(K)]
#[verifier::reject_recursive_types(V)]
pub struct ExMap<K, V>(serde_json::Map<K, V>);

/// The object maps this crate carries: JSON objects with string keys.
pub type JsonMap = serde_json::Map<String, serde_json::Value>;

pub uninterp spec fn obj_model(m: JsonMap) -> Map<Seq<char>, serde_json::Value>;

pub uninterp spec fn json_string_of(s: Seq<char>) -> serde_json::Value;

pub uninterp spec fn json_object_of(entries: Map<Seq<char>, serde_json::Value>) -> serde_json::Value;

/// Relies on `serde_json::Map::new`: the new object map is empty.
#[verifier::external_body]
pub(crate) fn obj_new() -> (r: JsonMap)
    ensures
        forall|k: Seq<char>| !obj_model(r).contains_key(k),
{
    serde_json::Map::new()
}

/// Relies on `serde_json::Map::clone`: the clone holds the same
/// entries.
#[verifier::external_body]
pub(crate) fn obj_clone(m: &JsonMap) -> (r: JsonMap)
    ensures
        obj_model(r) == obj_model(*m),
{
    m.clone()
}

/// Relies on `serde_json::Map::insert`: the entry is added, replacing
/// any entry under the same key.
#[verifier::external_body]
pub(crate) fn obj_insert(m: &mut JsonMap, k: &str, v: serde_json::Value)
    ensures
        obj_model(*final(m)) == obj_model(*old(m)).insert(k@, v),
{
    m.insert(k.to_string(), v);
}

/// Relies on `serde_json::Map::remove`: the entry under the key, if
/// any, leaves the map and is returned.
#[verifier::external_body]
pub(crate) fn obj_remove(m: &mut JsonMap, k: &str) -> (r: Option<serde_json::Value>)
    ensures
        obj_model(*final(m)) == obj_model(*old(m)).remove(k@),
        match r {
            Some(v) => obj_model(*old(m)).contains_key(k@) && v == obj_model(*old(m))[k@],
            None => !obj_model(*old(m)).contains_key(k@),
        },
{
    m.remove(k)
}

/// Relies on `serde_json::Map::get`: the entry under the key, if any.
#[verifier::external_body]
pub(crate) fn obj_get<'a>(m: &'a JsonMap, k: &str) -> (r: Option<&'a serde_json::Value>)
    ensures
        match r {
            Some(v) => obj_model(*m).contains_key(k@) && *v == obj_model(*m)[k@],
            None => !obj_model(*m).contains_key(k@),
        },
{
    m.get(k)
}

/// Relies on the `serde_json::Value::Object` constructor: the value
/// holds exactly the map's entries.
#[verifier::external_body]
pub(crate) fn value_from_object(m: JsonMap) -> (r: serde_json::Value)
    ensures
        r == json_object_of(obj_model(m)),
{
    serde_json::Value::Object(m)
}

/// Relies on the `serde_json::Value::String` constructor.
#[verifier::external_body]
pub(crate) fn value_from_string(s: &str) -> (r: serde_json::Value)
    ensures
        r == json_string_of(s@),
{
    serde_json::Value::String(s.to_string())
}

/// Relies on the shape of `serde_json::Value`: a value either is the
/// object of its entries or is no object at all.
#[verifier::external_body]
pub(crate) fn value_into_object(v: serde_json::Value) -> (r: Result<JsonMap, serde_json::Value>)
    ensures
        match r {
            Ok(m) => v == json_object_of(obj_model(m)),
            Err(v2) => v2 == v && (forall|e: Map<Seq<char>, serde_json::Value>|
                e.dom().finite() ==> v != json_object_of(e)),
        },
{
    match v {
        serde_json::Value::Object(m) => Ok(m),
        other => Err(other),
    }
}

/// Relies on `serde_json::Value::as_str`: `Some` exactly for a string
/// value, whose characters it returns.
#[verifier::external_body]
pub(crate) fn value_as_string(v: &serde_json::Value) -> (r: Option<String>)
    ensures
        match r {
            Some(s) => *v == json_string_of(s@),
            None => forall|t: Seq<char>| *v != json_string_of(t),
        },
{
    match v.as_str() {
        Some(s) => Some(s.to_string()),
        None => None,
    }
}

} // verus!
