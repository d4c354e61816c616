//! The JSON values held in session data, and the calls into `serde_json`
//! that the library relies on.
use vstd::prelude::*;



verus! {

#[verifier::external_type_specification]
#[verifier::external_body]
pub struct ExValue(serde_json::Value);

/// Relies on the derived `Clone` of `serde_json::Value`: the copy equals the
/// value it was made from.
pub assume_specification[ <serde_json::Value as Clone>::clone ](v: &serde_json::Value) -> (r:
    serde_json::Value)
    ensures
        r == *v,
;

#[verifier::external_type_specification]
#[verifier::external_body]
pub struct ExJsonError(serde_json::Error);

/// Relies on `serde_json::from_value`: decodes a JSON value into a `T`, or
/// fails. What comes out depends on `T`'s `Deserialize` impl, so nothing is
/// stated of it.
#[verifier::external_body]
pub(crate) fn decode_value<T: serde::de::DeserializeOwned>(v: serde_json::Value) -> Option<T> {
    serde_json::from_value(v).ok()
}

/// Relies on `serde_json::to_value`: encodes a `T` as a JSON value, or fails.
/// What comes out depends on `T`'s `Serialize` impl, so nothing is stated of
/// it.
#[verifier::external_body]
pub(crate) fn encode_value<T: serde::Serialize>(v: T) -> Result<serde_json::Value, serde_json::Error> {
    serde_json::to_value(v)
}

#[verifier::external_type_specification]
#[verifier::external_body]
#[verifier::reject_recursive_types(K)]
#[verifier::reject_recursive_types(V)]
pub struct ExJsonMap<K, V>(serde_json::Map<K, V>);

/// What a `serde_json::Map` holds: each key, as characters, with its value.
pub uninterp spec fn json_map_contents(m: serde_json::Map<String, serde_json::Value>) -> Map<
    Seq<char>,
    serde_json::Value,
>;

/// The contents of a map with no entry.
pub open spec fn no_entries() -> Map<Seq<char>, serde_json::Value> {
    Map::empty()
}

/// Relies on `serde_json::Map::new`: an empty map.
#[verifier::external_body]
pub(crate) fn json_map_new() -> (r: serde_json::Map<String, serde_json::Value>)
    ensures
        json_map_contents(r) == no_entries(),
{
    serde_json::Map::new()
}

/// Relies on `serde_json::Map::get`: the value under `key`, if any.
#[verifier::external_body]
pub(crate) fn json_map_get<'a>(m: &'a serde_json::Map<String, serde_json::Value>, key: &str) -> (r:
    Option<&'a serde_json::Value>)
    ensures
        match r {
            Some(v) => json_map_contents(*m).contains_key(key@) && *v == json_map_contents(*m)[key@],
            None => !json_map_contents(*m).contains_key(key@),
        },
{
    m.get(key)
}

/// Relies on `serde_json::Map::insert`: the value is stored under the key,
/// and the value that was there before, if any, is returned.
#[verifier::external_body]
pub(crate) fn json_map_insert(
    m: &mut serde_json::Map<String, serde_json::Value>,
    key: String,
    value: serde_json::Value,
) -> (r: Option<serde_json::Value>)
    ensures
        json_map_contents(*final(m)) == json_map_contents(*old(m)).insert(key@, value),
        r == (if json_map_contents(*old(m)).contains_key(key@) {
            Some(json_map_contents(*old(m))[key@])
        } else {
            None
        }),
{
    m.insert(key, value)
}

/// Relies on `serde_json::Map::remove`: the key is removed, and its value, if
/// any, is returned.
#[verifier::external_body]
pub(crate) fn json_map_remove(m: &mut serde_json::Map<String, serde_json::Value>, key: &str) -> (r:
    Option<serde_json::Value>)
    ensures
        json_map_contents(*final(m)) == json_map_contents(*old(m)).remove(key@),
        r == (if json_map_contents(*old(m)).contains_key(key@) {
            Some(json_map_contents(*old(m))[key@])
        } else {
            None
        }),
{
    m.remove(key)
}

/// Relies on `serde_json::Map::clear`: no entry is left.
#[verifier::external_body]
pub(crate) fn json_map_clear(m: &mut serde_json::Map<String, serde_json::Value>)
    ensures
        json_map_contents(*final(m)) == no_entries(),
{
    m.clear()
}

/// Relies on `serde_json::Map::len`: the number of entries.
#[verifier::external_body]
pub(crate) fn json_map_len(m: &serde_json::Map<String, serde_json::Value>) -> (r: usize)
    ensures
        r == json_map_contents(*m).len(),
{
    m.len()
}

/// Relies on `Clone` of `serde_json::Map<String, Value>`, which clones the
/// underlying map: the copy holds the same entries.
#[verifier::external_body]
pub(crate) fn json_map_clone(m: &serde_json::Map<String, serde_json::Value>) -> (r: serde_json::Map<
    String,
    serde_json::Value,
>)
    ensures
        json_map_contents(r) == json_map_contents(*m),
{
    m.clone()
}

/// What `serde_json` reads from `b` as a JSON object, or nothing when `b` is
/// not a JSON object.
pub uninterp spec fn json_object_map(b: Seq<u8>) -> Option<Map<Seq<char>, serde_json::Value>>;

/// The bytes that `serde_json` writes for the JSON object holding `m`.
pub uninterp spec fn json_object_bytes(m: Map<Seq<char>, serde_json::Value>) -> Seq<u8>;

/// Relies on `serde_json::from_slice` into a `serde_json::Map`: the object
/// that the bytes hold, or nothing when they hold no JSON object.
#[verifier::external_body]
pub(crate) fn parse_object(raw: &[u8]) -> (r: Option<serde_json::Map<String, serde_json::Value>>)
    ensures
        match r {
            Some(m) => json_object_map(raw@) == Some(json_map_contents(m)),
            None => json_object_map(raw@) is None,
        },
{
    serde_json::from_slice(raw).ok()
}

/// Relies on `serde_json::to_vec` of a `serde_json::Map`: the bytes of the
/// JSON object holding its entries. Writing a map of strings to JSON values
/// into a `Vec` never fails.
#[verifier::external_body]
pub(crate) fn write_object(m: &serde_json::Map<String, serde_json::Value>) -> (r: Result<
    Vec<u8>,
    serde_json::Error,
>)
    ensures
        r is Ok,
        r is Ok ==> r->Ok_0@ == json_object_bytes(json_map_contents(*m)),
{
    serde_json::to_vec(m)
}

} // verus!
