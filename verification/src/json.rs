//! The JSON documents the control plane reads and rewrites, held as plain values.
//!
//! `JsonValue` mirrors the shape of a decoded JSON document: object members keep their
//! order, and numbers keep the three integer/float classes a decoder distinguishes. A float
//! is carried by its IEEE-754 bit pattern so the library never computes on it.
use vstd::prelude::*;

verus! {

/// A JSON number, classified as a JSON decoder reports it.
#[derive(Debug, Clone, Copy, PartialEq, Eq)]
pub enum JsonNumber {
    /// A non-negative integer.
    PosInt(u64),
    /// A negative integer.
    NegInt(i64),
    /// A floating-point number, by its bit pattern.
    Float(u64),
}

/// A decoded JSON document.
#[derive(Debug)]
pub enum JsonValue {
    Null,
    Bool(bool),
    Number(JsonNumber),
    String(String),
    Array(Vec<JsonValue>),
    /// Object members in document order; keys are distinct in a decoded document.
    Object(Vec<(String, JsonValue)>),
}

/// Position of the first member of `members` whose key is `key`.
pub open spec fn member_index(members: Seq<(String, JsonValue)>, key: Seq<char>) -> Option<int> {
    if exists|i: int| 0 <= i < members.len() && members[i].0@ == key {
        Some(
            choose|i: int|
                0 <= i < members.len() && members[i].0@ == key && forall|j: int|
                    0 <= j < i ==> members[j].0@ != key,
        )
    } else {
        None
    }
}

/// `Value::get(key)`: the member named `key` of an object, `None` for any other value.
pub open spec fn json_get(v: JsonValue, key: Seq<char>) -> Option<JsonValue> {
    match v {
        JsonValue::Object(m) => match member_index(m@, key) {
            Some(i) => Some(m@[i].1),
            None => None,
        },
        _ => None,
    }
}

/// `Value::as_str`.
pub open spec fn json_as_str(v: JsonValue) -> Option<Seq<char>> {
    match v {
        JsonValue::String(s) => Some(s@),
        _ => None,
    }
}

/// `Value::as_u64`.
pub open spec fn json_as_u64(v: JsonValue) -> Option<u64> {
    match v {
        JsonValue::Number(JsonNumber::PosInt(n)) => Some(n),
        _ => None,
    }
}

/// `Value::as_i64`.
pub open spec fn json_as_i64(v: JsonValue) -> Option<i64> {
    match v {
        JsonValue::Number(JsonNumber::PosInt(n)) => if n <= i64::MAX {
            Some(n as i64)
        } else {
            None
        },
        JsonValue::Number(JsonNumber::NegInt(n)) => Some(n),
        _ => None,
    }
}

/// The JSON number a decoder produces for the integer `n`.
pub open spec fn json_int(n: i64) -> JsonValue {
    if n >= 0 {
        JsonValue::Number(JsonNumber::PosInt(n as u64))
    } else {
        JsonValue::Number(JsonNumber::NegInt(n))
    }
}

/// The JSON number for the integer `n`.
pub fn int_value(n: i64) -> (r: JsonValue)
    ensures
        r == json_int(n),
        json_as_i64(r) == Some(n),
{
    if n >= 0 {
        JsonValue::Number(JsonNumber::PosInt(n as u64))
    } else {
        JsonValue::Number(JsonNumber::NegInt(n))
    }
}

/// Member `i` of object `v` is named `key` and holds the text `val`.
pub open spec fn text_member(v: JsonValue, i: int, key: Seq<char>, val: Seq<char>) -> bool {
    match v {
        JsonValue::Object(m) => 0 <= i < m@.len() && m@[i].0@ == key && json_as_str(m@[i].1)
            == Some(val),
        _ => false,
    }
}

/// Member `i` of object `v` is named `key` and holds the integer `n`.
pub open spec fn int_member(v: JsonValue, i: int, key: Seq<char>, n: i64) -> bool {
    match v {
        JsonValue::Object(m) => 0 <= i < m@.len() && m@[i].0@ == key && m@[i].1 == json_int(n),
        _ => false,
    }
}

/// Number of members of an object (0 for any other value).
pub open spec fn member_count(v: JsonValue) -> int {
    match v {
        JsonValue::Object(m) => m@.len() as int,
        _ => 0,
    }
}

pub fn text_pair(key: &str, val: &str) -> (r: (String, JsonValue))
    ensures
        r.0@ == key@,
        json_as_str(r.1) == Some(val@),
{
    (key.to_owned(), JsonValue::String(val.to_owned()))
}

pub fn int_pair(key: &str, n: i64) -> (r: (String, JsonValue))
    ensures
        r.0@ == key@,
        r.1 == json_int(n),
{
    (key.to_owned(), int_value(n))
}


/// Member `i` of object `v` is named `key` and holds `flag`.
pub open spec fn bool_member(v: JsonValue, i: int, key: Seq<char>, flag: bool) -> bool {
    match v {
        JsonValue::Object(m) => 0 <= i < m@.len() && m@[i].0@ == key && m@[i].1 == JsonValue::Bool(
            flag,
        ),
        _ => false,
    }
}

/// `v` is an array of strings whose texts are `items`.
pub open spec fn is_text_array(v: JsonValue, items: Seq<Seq<char>>) -> bool {
    match v {
        JsonValue::Array(a) => a@.len() == items.len() && forall|k: int|
            0 <= k < items.len() ==> json_as_str(#[trigger] a@[k]) == Some(items[k]),
        _ => false,
    }
}

/// Member `i` of object `v` is named `key` and holds an array of the strings `items`.
pub open spec fn texts_member(v: JsonValue, i: int, key: Seq<char>, items: Seq<Seq<char>>) -> bool {
    match v {
        JsonValue::Object(m) => 0 <= i < m@.len() && m@[i].0@ == key && is_text_array(
            m@[i].1,
            items,
        ),
        _ => false,
    }
}

/// An object member holding a boolean.
pub fn bool_pair(key: &str, flag: bool) -> (r: (String, JsonValue))
    ensures
        r.0@ == key@,
        r.1 == JsonValue::Bool(flag),
{
    (key.to_owned(), JsonValue::Bool(flag))
}

/// An object member holding an array of strings.
pub fn texts_pair(key: &str, items: &Vec<String>) -> (r: (String, JsonValue))
    ensures
        r.0@ == key@,
        is_text_array(r.1, crate::text::strings_view(items@)),
{
    let mut a: Vec<JsonValue> = Vec::new();
    let mut k: usize = 0;
    while k < items.len()
        invariant
            k <= items@.len(),
            a@.len() == k,
            forall|j: int| 0 <= j < k ==> json_as_str(#[trigger] a@[j]) == Some(items@[j]@),
        decreases items@.len() - k,
    {
        a.push(JsonValue::String(items[k].clone()));
        k = k + 1;
    }
    (key.to_owned(), JsonValue::Array(a))
}

/// The first member named `key` is found at its position.
pub proof fn lemma_member_index_first(members: Seq<(String, JsonValue)>, key: Seq<char>, i: int)
    requires
        0 <= i < members.len(),
        members[i].0@ == key,
        forall|j: int| 0 <= j < i ==> members[j].0@ != key,
    ensures
        member_index(members, key) == Some(i),
{
    assert(exists|k: int| 0 <= k < members.len() && members[k].0@ == key);
    let w = choose|k: int|
        0 <= k < members.len() && members[k].0@ == key && forall|j: int|
            0 <= j < k ==> members[j].0@ != key;
    assert(0 <= i < members.len() && members[i].0@ == key && forall|j: int|
        0 <= j < i ==> members[j].0@ != key);
    if w < i {
        assert(members[w].0@ != key);
    } else if w > i {
        assert(members[i].0@ != key);
    }
}

proof fn lemma_member_index_none(members: Seq<(String, JsonValue)>, key: Seq<char>)
    requires
        forall|j: int| 0 <= j < members.len() ==> members[j].0@ != key,
    ensures
        member_index(members, key) is None,
{
}

impl JsonValue {
    /// True for JSON `null`.
    pub fn is_null(&self) -> (r: bool)
        ensures
            r == (*self is Null),
    {
        match self {
            JsonValue::Null => true,
            _ => false,
        }
    }

    /// The member named `key` of an object; `None` for a missing key or a non-object.
    pub fn get(&self, key: &str) -> (r: Option<&JsonValue>)
        ensures
            match r {
                Some(x) => json_get(*self, key@) == Some(*x),
                None => json_get(*self, key@) is None,
            },
    {
        match self {
            JsonValue::Object(members) => {
                let mut i: usize = 0;
                while i < members.len()
                    invariant
                        *self == JsonValue::Object(*members),
                        i <= members@.len(),
                        forall|j: int| 0 <= j < i ==> members@[j].0@ != key@,
                    decreases members@.len() - i,
                {
                    if crate::text::str_equal(members[i].0.as_str(), key) {
                        proof {
                            lemma_member_index_first(members@, key@, i as int);
                        }
                        return Some(&members[i].1);
                    }
                    i = i + 1;
                }
                proof {
                    lemma_member_index_none(members@, key@);
                }
                None
            },
            _ => None,
        }
    }

    /// The text of a JSON string.
    pub fn as_str(&self) -> (r: Option<&str>)
        ensures
            match r {
                Some(s) => json_as_str(*self) == Some(s@),
                None => json_as_str(*self) is None,
            },
    {
        match self {
            JsonValue::String(s) => Some(s.as_str()),
            _ => None,
        }
    }

    /// A non-negative integer as `u64`.
    pub fn as_u64(&self) -> (r: Option<u64>)
        ensures
            r == json_as_u64(*self),
    {
        match self {
            JsonValue::Number(JsonNumber::PosInt(n)) => Some(*n),
            _ => None,
        }
    }

    /// An integer that fits `i64`.
    pub fn as_i64(&self) -> (r: Option<i64>)
        ensures
            r == json_as_i64(*self),
    {
        match self {
            JsonValue::Number(JsonNumber::PosInt(n)) => {
                if *n <= 9223372036854775807u64 {
                    Some(*n as i64)
                } else {
                    None
                }
            },
            JsonValue::Number(JsonNumber::NegInt(n)) => Some(*n),
            _ => None,
        }
    }
}

} // verus!
