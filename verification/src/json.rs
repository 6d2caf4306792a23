//! A JSON document as the validators and renderers see it.
//!
//! Numbers keep the form they arrived in: `Int` and `UInt` for integers that
//! fit a machine word, `Number` for any other number as its JSON text.
//! An object is its entries in order, each key at most once.

use vstd::prelude::*;

use crate::text::str_eq;

verus! {

/// A JSON value.
#[derive(Debug, PartialEq)]
pub enum JsonValue {
    Null,
    Bool(bool),
    Int(i64),
    UInt(u64),
    Number(String),
    Str(String),
    Array(Vec<JsonValue>),
    Object(Vec<(String, JsonValue)>),
}

/// `k` is the first entry of `entries` whose key is `key`.
pub open spec fn is_entry_of(entries: Seq<(String, JsonValue)>, key: Seq<char>, k: int) -> bool {
    &&& 0 <= k < entries.len()
    &&& entries[k].0@ == key
    &&& forall|j: int| 0 <= j < k ==> entries[j].0@ != key
}

/// The position of the entry for `key`, if the object has one.
pub open spec fn entry_index(entries: Seq<(String, JsonValue)>, key: Seq<char>) -> Option<int> {
    if exists|k: int| is_entry_of(entries, key, k) {
        Some(choose|k: int| is_entry_of(entries, key, k))
    } else {
        None
    }
}

/// `Map::get`: the value stored under `key`.
pub open spec fn lookup(entries: Seq<(String, JsonValue)>, key: Seq<char>) -> Option<JsonValue> {
    match entry_index(entries, key) {
        Some(k) => Some(entries[k].1),
        None => None,
    }
}

/// The first entry for a key is the one `entry_index` names.
pub proof fn lemma_entry_index_unique(entries: Seq<(String, JsonValue)>, key: Seq<char>, k: int)
    requires
        is_entry_of(entries, key, k),
    ensures
        entry_index(entries, key) == Some(k),
{
    let k2 = choose|k: int| is_entry_of(entries, key, k);
    assert(is_entry_of(entries, key, k2));
    if k2 < k {
        assert(entries[k2].0@ != key);
    } else if k < k2 {
        assert(entries[k].0@ != key);
    }
}

/// The position of the entry for `key` in `entries`.
pub fn find_entry(entries: &Vec<(String, JsonValue)>, key: &str) -> (r: Option<usize>)
    ensures
        match r {
            Some(k) => entry_index(entries@, key@) == Some(k as int),
            None => entry_index(entries@, key@) is None,
        },
{
    let mut i: usize = 0;
    while i < entries.len()
        invariant
            i <= entries@.len(),
            forall|j: int| 0 <= j < i ==> entries@[j].0@ != key@,
        decreases entries@.len() - i,
    {
        if str_eq(entries[i].0.as_str(), key) {
            proof {
                lemma_entry_index_unique(entries@, key@, i as int);
            }
            return Some(i);
        }
        i = i + 1;
    }
    assert(!exists|k: int| is_entry_of(entries@, key@, k));
    None
}

/// The value stored under `key`.
pub fn get<'a>(entries: &'a Vec<(String, JsonValue)>, key: &str) -> (r: Option<&'a JsonValue>)
    ensures
        match r {
            Some(v) => lookup(entries@, key@) == Some(*v),
            None => lookup(entries@, key@) is None,
        },
{
    match find_entry(entries, key) {
        Some(k) => Some(&entries[k].1),
        None => None,
    }
}

/// `v` is the JSON string `s`.
pub open spec fn is_text(v: JsonValue, s: Seq<char>) -> bool {
    match v {
        JsonValue::Str(x) => x@ == s,
        _ => false,
    }
}

/// `v` is the JSON boolean `b`.
pub open spec fn is_boolean(v: JsonValue, b: bool) -> bool {
    v == JsonValue::Bool(b)
}

/// A JSON string holding the characters of `s`.
pub fn text(s: &str) -> (r: JsonValue)
    ensures
        is_text(r, s@),
{
    JsonValue::Str(s.to_owned())
}

/// An object entry `key: value`.
pub fn entry(key: &str, value: JsonValue) -> (r: (String, JsonValue))
    ensures
        r.0@ == key@,
        r.1 == value,
{
    (key.to_owned(), value)
}

} // verus!
