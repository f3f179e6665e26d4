//! A JSON value modeled as a plain datatype, with verified lookup.
//!
//! The protocol engine reads and builds JSON documents; this type holds
//! them as plain values so that every step of that logic is verified.
//! Objects keep their members in order, and lookup finds the first
//! member with a given key.  Numbers are held as signed integers, which
//! covers every value this protocol carries.

use vstd::prelude::*;
use vstd::string::StringExecFns;

verus! {

/// A JSON document.
#[derive(Debug, PartialEq, Eq)]
pub enum JsonValue {
    Null,
    Bool(bool),
    Int(i64),
    Str(String),
    Arr(Vec<JsonValue>),
    Obj(Vec<(String, JsonValue)>),
}

/// The value of the first member of `fields` whose key reads `key`.
pub open spec fn seq_get(fields: Seq<(String, JsonValue)>, key: Seq<char>) -> Option<JsonValue>
    decreases fields.len(),
{
    if fields.len() == 0 {
        None
    } else if fields[0].0@ == key {
        Some(fields[0].1)
    } else {
        seq_get(fields.drop_first(), key)
    }
}

/// Member lookup: the value under `key` if `v` is an object holding it.
pub open spec fn jget(v: JsonValue, key: Seq<char>) -> Option<JsonValue> {
    match v {
        JsonValue::Obj(fields) => seq_get(fields@, key),
        _ => None,
    }
}

/// `v` is the JSON string whose characters read `s`.
pub open spec fn is_jstr(v: JsonValue, s: Seq<char>) -> bool {
    v matches JsonValue::Str(t) && t@ == s
}

/// When no member of `fields` has key `key`, lookup finds nothing.
pub proof fn lemma_seq_get_absent(fields: Seq<(String, JsonValue)>, key: Seq<char>)
    requires
        forall|i: int| 0 <= i < fields.len() ==> fields[i].0@ != key,
    ensures
        seq_get(fields, key) is None,
    decreases fields.len(),
{
    if fields.len() > 0 {
        lemma_seq_get_absent(fields.drop_first(), key);
    }
}

/// When `i` is the first member of `fields` with key `key`, lookup
/// finds exactly its value.
pub proof fn lemma_seq_get_at(fields: Seq<(String, JsonValue)>, i: int, key: Seq<char>)
    requires
        0 <= i < fields.len(),
        fields[i].0@ == key,
        forall|j: int| 0 <= j < i ==> fields[j].0@ != key,
    ensures
        seq_get(fields, key) == Some(fields[i].1),
    decreases i,
{
    if i > 0 {
        lemma_seq_get_at(fields.drop_first(), i - 1, key);
    }
}

/// Removing a member whose key is not `key` leaves the lookup of `key`
/// unchanged.
pub proof fn lemma_seq_get_remove(fields: Seq<(String, JsonValue)>, i: int, key: Seq<char>)
    requires
        0 <= i < fields.len(),
        fields[i].0@ != key,
    ensures
        seq_get(fields.remove(i), key) == seq_get(fields, key),
    decreases fields.len(),
{
    if i == 0 {
        assert(fields.remove(0) =~= fields.drop_first());
    } else {
        if fields[0].0@ == key {
            assert(fields.remove(i)[0] == fields[0]);
        } else {
            assert(fields.remove(i).drop_first() =~= fields.drop_first().remove(i - 1));
            lemma_seq_get_remove(fields.drop_first(), i - 1, key);
        }
    }
}

/// Finds the first member of `fields` whose key reads `key`.
pub fn obj_find(fields: &Vec<(String, JsonValue)>, key: &str) -> (r: Option<usize>)
    ensures
        match r {
            Some(i) => i < fields@.len() && fields@[i as int].0@ == key@ && (forall|j: int|
                0 <= j < i ==> fields@[j].0@ != key@) && seq_get(fields@, key@) == Some(
                fields@[i as int].1,
            ),
            None => seq_get(fields@, key@) is None,
        },
{
    let needle = String::from_str(key);
    let n = fields.len();
    let mut i: usize = 0;
    while i < n
        invariant
            0 <= i <= n,
            n == fields@.len(),
            needle@ == key@,
            forall|j: int| 0 <= j < i ==> fields@[j].0@ != key@,
        decreases n - i,
    {
        if fields[i].0 == needle {
            proof {
                lemma_seq_get_at(fields@, i as int, key@);
            }
            return Some(i);
        }
        i = i + 1;
    }
    proof {
        lemma_seq_get_absent(fields@, key@);
    }
    None
}

impl JsonValue {
    /// The member under `key` if this value is an object holding one.
    pub fn get<'a>(&'a self, key: &str) -> (r: Option<&'a JsonValue>)
        ensures
            match r {
                Some(v) => jget(*self, key@) == Some(*v),
                None => jget(*self, key@) is None,
            },
    {
        match self {
            JsonValue::Obj(fields) => match obj_find(fields, key) {
                Some(i) => Some(&fields[i].1),
                None => None,
            },
            _ => None,
        }
    }

    /// Whether this value is the JSON string reading `s`.
    pub fn is_string_eq(&self, s: &str) -> (r: bool)
        ensures
            r == is_jstr(*self, s@),
    {
        match self {
            JsonValue::Str(t) => {
                let needle = String::from_str(s);
                *t == needle
            },
            _ => false,
        }
    }

    /// A JSON string reading `s`.
    pub fn string_of(s: &str) -> (r: JsonValue)
        ensures
            is_jstr(r, s@),
    {
        JsonValue::Str(String::from_str(s))
    }
}

/// An object of one member.
pub fn obj1(k1: &str, v1: JsonValue) -> (r: JsonValue)
    ensures
        r is Obj,
        jget(r, k1@) == Some(v1),
        forall|k: Seq<char>| k != k1@ ==> jget(r, k) is None,
{
    let mut fields: Vec<(String, JsonValue)> = Vec::new();
    fields.push((String::from_str(k1), v1));
    proof {
        lemma_seq_get_at(fields@, 0, k1@);
        assert forall|k: Seq<char>| k != k1@ implies seq_get(fields@, k) is None by {
            lemma_seq_get_absent(fields@, k);
        }
    }
    JsonValue::Obj(fields)
}

/// An object of two members with distinct keys.
pub fn obj2(k1: &str, v1: JsonValue, k2: &str, v2: JsonValue) -> (r: JsonValue)
    requires
        k1@ != k2@,
    ensures
        r is Obj,
        jget(r, k1@) == Some(v1),
        jget(r, k2@) == Some(v2),
        forall|k: Seq<char>| k != k1@ && k != k2@ ==> jget(r, k) is None,
{
    let mut fields: Vec<(String, JsonValue)> = Vec::new();
    fields.push((String::from_str(k1), v1));
    fields.push((String::from_str(k2), v2));
    proof {
        lemma_seq_get_at(fields@, 0, k1@);
        lemma_seq_get_at(fields@, 1, k2@);
        assert forall|k: Seq<char>| k != k1@ && k != k2@ implies seq_get(fields@, k) is None by {
            lemma_seq_get_absent(fields@, k);
        }
    }
    JsonValue::Obj(fields)
}

/// An object of three members with distinct keys.
pub fn obj3(k1: &str, v1: JsonValue, k2: &str, v2: JsonValue, k3: &str, v3: JsonValue) -> (r:
    JsonValue)
    requires
        k1@ != k2@,
        k1@ != k3@,
        k2@ != k3@,
    ensures
        r is Obj,
        jget(r, k1@) == Some(v1),
        jget(r, k2@) == Some(v2),
        jget(r, k3@) == Some(v3),
        forall|k: Seq<char>| k != k1@ && k != k2@ && k != k3@ ==> jget(r, k) is None,
{
    let mut fields: Vec<(String, JsonValue)> = Vec::new();
    fields.push((String::from_str(k1), v1));
    fields.push((String::from_str(k2), v2));
    fields.push((String::from_str(k3), v3));
    proof {
        lemma_seq_get_at(fields@, 0, k1@);
        lemma_seq_get_at(fields@, 1, k2@);
        lemma_seq_get_at(fields@, 2, k3@);
        assert forall|k: Seq<char>| k != k1@ && k != k2@ && k != k3@ implies seq_get(
            fields@,
            k,
        ) is None by {
            lemma_seq_get_absent(fields@, k);
        }
    }
    JsonValue::Obj(fields)
}

/// An object of four members with distinct keys.
pub fn obj4(
    k1: &str,
    v1: JsonValue,
    k2: &str,
    v2: JsonValue,
    k3: &str,
    v3: JsonValue,
    k4: &str,
    v4: JsonValue,
) -> (r: JsonValue)
    requires
        k1@ != k2@,
        k1@ != k3@,
        k1@ != k4@,
        k2@ != k3@,
        k2@ != k4@,
        k3@ != k4@,
    ensures
        r is Obj,
        jget(r, k1@) == Some(v1),
        jget(r, k2@) == Some(v2),
        jget(r, k3@) == Some(v3),
        jget(r, k4@) == Some(v4),
        forall|k: Seq<char>| k != k1@ && k != k2@ && k != k3@ && k != k4@ ==> jget(r, k) is None,
{
    let mut fields: Vec<(String, JsonValue)> = Vec::new();
    fields.push((String::from_str(k1), v1));
    fields.push((String::from_str(k2), v2));
    fields.push((String::from_str(k3), v3));
    fields.push((String::from_str(k4), v4));
    proof {
        lemma_seq_get_at(fields@, 0, k1@);
        lemma_seq_get_at(fields@, 1, k2@);
        lemma_seq_get_at(fields@, 2, k3@);
        lemma_seq_get_at(fields@, 3, k4@);
        assert forall|k: Seq<char>| k != k1@ && k != k2@ && k != k3@ && k != k4@ implies seq_get(
            fields@,
            k,
        ) is None by {
            lemma_seq_get_absent(fields@, k);
        }
    }
    JsonValue::Obj(fields)
}

/// An array of one element.
pub fn arr1(v1: JsonValue) -> (r: JsonValue)
    ensures
        r matches JsonValue::Arr(items) && items@.len() == 1 && items@[0] == v1,
{
    let mut items: Vec<JsonValue> = Vec::new();
    items.push(v1);
    JsonValue::Arr(items)
}

/// An array of three elements.
pub fn arr3(v1: JsonValue, v2: JsonValue, v3: JsonValue) -> (r: JsonValue)
    ensures
        r matches JsonValue::Arr(items) && items@.len() == 3 && items@[0] == v1 && items@[1] == v2
            && items@[2] == v3,
{
    let mut items: Vec<JsonValue> = Vec::new();
    items.push(v1);
    items.push(v2);
    items.push(v3);
    JsonValue::Arr(items)
}

} // verus!
