//! The JSON values the client puts into request parameters.
//!
//! Bitcoin Core takes its RPC arguments positionally. A method's optional
//! arguments are sent as one slot each, in declaration order, with `null` in
//! the slot of an argument that is not set, so that a later argument never
//! shifts into an earlier one's position. An argument that is itself a JSON
//! object carries only the fields that are set.

use vstd::prelude::*;

verus! {

/// A JSON value.
#[derive(Debug, PartialEq)]
pub enum JsonValue {
    Null,
    Bool(bool),
    Int(i64),
    Str(String),
    Array(Vec<JsonValue>),
    Object(Vec<JsonMember>),
}

/// One `"key": value` member of a JSON object.
#[derive(Debug, PartialEq)]
pub struct JsonMember {
    pub key: String,
    pub value: JsonValue,
}

/// The slot of an optional flag: its value, or `null` when unset.
pub open spec fn opt_bool(o: Option<bool>) -> JsonValue {
    match o {
        Some(b) => JsonValue::Bool(b),
        None => JsonValue::Null,
    }
}

/// The slot of an optional integer: its value, or `null` when unset.
pub open spec fn opt_int(o: Option<i64>) -> JsonValue {
    match o {
        Some(i) => JsonValue::Int(i),
        None => JsonValue::Null,
    }
}

/// The slot of an optional string: its value, or `null` when unset.
pub open spec fn opt_str(o: Option<String>) -> JsonValue {
    match o {
        Some(s) => JsonValue::Str(s),
        None => JsonValue::Null,
    }
}

/// `j` is the JSON array of the strings `v`, in order.
pub open spec fn is_str_array(j: JsonValue, v: Seq<String>) -> bool {
    &&& j is Array
    &&& j->Array_0@.len() == v.len()
    &&& forall|i: int| 0 <= i < v.len() ==> j->Array_0@[i] == JsonValue::Str(#[trigger] v[i])
}

/// `j` is the JSON array of the integers `v`, in order.
pub open spec fn is_int_array(j: JsonValue, v: Seq<i64>) -> bool {
    &&& j is Array
    &&& j->Array_0@.len() == v.len()
    &&& forall|i: int| 0 <= i < v.len() ==> j->Array_0@[i] == JsonValue::Int(#[trigger] v[i])
}

/// `j` is the member `"key": value` of an object.
pub open spec fn is_member(m: JsonMember, key: Seq<char>, value: JsonValue) -> bool {
    m.key@ == key && m.value == value
}

/// `1` when `b` holds, else `0`: the room an optional member takes.
pub open spec fn count(b: bool) -> int {
    if b {
        1
    } else {
        0
    }
}

/// The JSON array of the strings `v`, in order.
pub fn json_str_array(v: Vec<String>) -> (r: JsonValue)
    ensures
        is_str_array(r, v@),
{
    let mut out: Vec<JsonValue> = Vec::new();
    let mut i: usize = 0;
    while i < v.len()
        invariant
            i <= v@.len(),
            out@.len() == i,
            forall|k: int| 0 <= k < i ==> out@[k] == JsonValue::Str(#[trigger] v@[k]),
        decreases v@.len() - i,
    {
        out.push(JsonValue::Str(v[i].clone()));
        i = i + 1;
    }
    JsonValue::Array(out)
}

/// The JSON array of the integers `v`, in order.
pub fn json_int_array(v: Vec<i64>) -> (r: JsonValue)
    ensures
        is_int_array(r, v@),
{
    let mut out: Vec<JsonValue> = Vec::new();
    let mut i: usize = 0;
    while i < v.len()
        invariant
            i <= v@.len(),
            out@.len() == i,
            forall|k: int| 0 <= k < i ==> out@[k] == JsonValue::Int(#[trigger] v@[k]),
        decreases v@.len() - i,
    {
        out.push(JsonValue::Int(v[i]));
        i = i + 1;
    }
    JsonValue::Array(out)
}

/// The slot of an optional flag.
pub fn json_opt_bool(o: Option<bool>) -> (r: JsonValue)
    ensures
        r == opt_bool(o),
{
    match o {
        Some(b) => JsonValue::Bool(b),
        None => JsonValue::Null,
    }
}

/// The slot of an optional integer.
pub fn json_opt_int(o: Option<i64>) -> (r: JsonValue)
    ensures
        r == opt_int(o),
{
    match o {
        Some(i) => JsonValue::Int(i),
        None => JsonValue::Null,
    }
}

/// The slot of an optional string.
pub fn json_opt_str(o: Option<String>) -> (r: JsonValue)
    ensures
        r == opt_str(o),
{
    match o {
        Some(s) => JsonValue::Str(s),
        None => JsonValue::Null,
    }
}

/// A member `"key": value`.
pub fn member(key: &str, value: JsonValue) -> (r: JsonMember)
    ensures
        is_member(r, key@, value),
{
    JsonMember { key: key.to_owned(), value }
}

} // verus!
