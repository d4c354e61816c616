//! The data map of a session: string keys, JSON values, each key at most once.
use vstd::prelude::*;

use serde_json::Value;

use crate::json::{
    json_map_clear, json_map_clone, json_map_contents, json_map_get, json_map_insert, json_map_len,
    json_map_new, json_map_remove,
};

verus! {

/// A map from string keys to JSON values, kept in a `serde_json::Map`.
#[derive(Debug)]
pub struct Data {
    map: serde_json::Map<String, Value>,
}

impl View for Data {
    type V = Map<Seq<char>, Value>;

    closed spec fn view(&self) -> Map<Seq<char>, Value> {
        json_map_contents(self.map)
    }
}

impl Data {
    /// A data map that holds only the entries of `map`.
    pub fn from_map(map: serde_json::Map<String, Value>) -> (r: Data)
        ensures
            r@ == json_map_contents(map),
    {
        Data { map }
    }

    /// An empty map.
    pub fn new() -> (r: Data)
        ensures
            r@ == Map::<Seq<char>, Value>::empty(),
    {
        Data { map: json_map_new() }
    }

    /// The underlying `serde_json::Map`.
    pub fn as_map(&self) -> (r: &serde_json::Map<String, Value>)
        ensures
            json_map_contents(*r) == self@,
    {
        &self.map
    }

    /// The value stored under `key`, if any.
    pub fn get(&self, key: &str) -> (r: Option<&Value>)
        ensures
            match r {
                Some(v) => self@.contains_key(key@) && *v == self@[key@],
                None => !self@.contains_key(key@),
            },
    {
        json_map_get(&self.map, key)
    }

    /// Whether `key` has an entry.
    pub fn contains_key(&self, key: &str) -> (r: bool)
        ensures
            r == self@.contains_key(key@),
    {
        json_map_get(&self.map, key).is_some()
    }

    /// The number of entries.
    pub fn len(&self) -> (r: usize)
        ensures
            r == self@.len(),
    {
        json_map_len(&self.map)
    }

    /// Whether the map has no entry.
    pub fn is_empty(&self) -> (r: bool)
        ensures
            r == (self@.len() == 0),
    {
        json_map_len(&self.map) == 0
    }

    /// Stores `value` under `key`, returning the value that was there before.
    pub fn insert(&mut self, key: String, value: Value) -> (r: Option<Value>)
        ensures
            final(self)@ == old(self)@.insert(key@, value),
            r == (if old(self)@.contains_key(key@) {
                Some(old(self)@[key@])
            } else {
                None
            }),
    {
        json_map_insert(&mut self.map, key, value)
    }

    /// Removes `key`'s entry, returning its value.
    pub fn remove(&mut self, key: &str) -> (r: Option<Value>)
        ensures
            final(self)@ == old(self)@.remove(key@),
            r == (if old(self)@.contains_key(key@) {
                Some(old(self)@[key@])
            } else {
                None
            }),
    {
        json_map_remove(&mut self.map, key)
    }

    /// Removes every entry.
    pub fn clear(&mut self)
        ensures
            final(self)@ == Map::<Seq<char>, Value>::empty(),
    {
        json_map_clear(&mut self.map)
    }

    /// A copy of the map.
    pub fn snapshot(&self) -> (r: Data)
        ensures
            r@ == self@,
    {
        Data { map: json_map_clone(&self.map) }
    }
}

} // verus!
