//! A JSON value as the library reads it: objects by key, arrays by index,
//! strings, and numbers through their `i64` value.

use vstd::prelude::*;
use vstd::string::StringExecFns;
use crate::strmap::{last_index, lookup};

verus! {

/// A JSON value. A number is kept as its `i64` value, `None` when it has
/// none (a float, or an integer beyond `i64`).
pub enum JsonValue {
    Null,
    Bool(bool),
    Number(Option<i64>),
    Str(String),
    Array(Vec<JsonValue>),
    Object(Vec<(String, JsonValue)>),
}

/// The member `k` of an object; `None` for anything else.
pub open spec fn jget(v: JsonValue, k: Seq<char>) -> Option<JsonValue> {
    match v {
        JsonValue::Object(m) => lookup(m@, k),
        _ => None,
    }
}

/// The element `i` of an array; `None` for anything else.
pub open spec fn jidx(v: JsonValue, i: int) -> Option<JsonValue> {
    match v {
        JsonValue::Array(a) => if 0 <= i < a@.len() {
            Some(a@[i])
        } else {
            None
        },
        _ => None,
    }
}

/// The text of a string.
pub open spec fn jstr(v: JsonValue) -> Option<Seq<char>> {
    match v {
        JsonValue::Str(s) => Some(s@),
        _ => None,
    }
}

/// The `i64` value of a number.
pub open spec fn ji64(v: JsonValue) -> Option<i64> {
    match v {
        JsonValue::Number(n) => n,
        _ => None,
    }
}

/// The elements of an array.
pub open spec fn jarr(v: JsonValue) -> Option<Seq<JsonValue>> {
    match v {
        JsonValue::Array(a) => Some(a@),
        _ => None,
    }
}

/// `jget` on an optional value.
pub open spec fn oget(v: Option<JsonValue>, k: Seq<char>) -> Option<JsonValue> {
    match v {
        Some(x) => jget(x, k),
        None => None,
    }
}

/// `jidx` on an optional value.
pub open spec fn oidx(v: Option<JsonValue>, i: int) -> Option<JsonValue> {
    match v {
        Some(x) => jidx(x, i),
        None => None,
    }
}

/// `jstr` on an optional value.
pub open spec fn ostr(v: Option<JsonValue>) -> Option<Seq<char>> {
    match v {
        Some(x) => jstr(x),
        None => None,
    }
}

/// `ji64` on an optional value.
pub open spec fn oi64(v: Option<JsonValue>) -> Option<i64> {
    match v {
        Some(x) => ji64(x),
        None => None,
    }
}

impl JsonValue {
    /// `Value::get` with a key.
    pub fn get(&self, k: &str) -> (r: Option<&JsonValue>)
        ensures
            r matches Some(v) ==> jget(*self, k@) == Some(*v),
            r is None ==> jget(*self, k@) is None,
    {
        match self {
            JsonValue::Object(m) => {
                let key = String::from_str(k);
                let mut i: usize = m.len();
                assert(m@.take(i as int) =~= m@);
                while i > 0
                    invariant
                        i <= m@.len(),
                        key@ == k@,
                        jget(*self, k@) == lookup(m@, k@),
                        last_index(m@, k@) == last_index(m@.take(i as int), k@),
                    decreases i,
                {
                    let ghost t = m@.take(i as int);
                    assert(t.drop_last() =~= m@.take(i - 1));
                    assert(t.last() == m@[i - 1]);
                    if m[i - 1].0 == key {
                        assert(last_index(t, k@) == Some(i - 1));
                        assert(lookup(m@, k@) == Some(m@[i - 1].1));
                        return Some(&m[i - 1].1);
                    }
                    i = i - 1;
                }
                None
            },
            _ => None,
        }
    }

    /// `Value::get` with an index.
    pub fn get_index(&self, i: usize) -> (r: Option<&JsonValue>)
        ensures
            r matches Some(v) ==> jidx(*self, i as int) == Some(*v),
            r is None ==> jidx(*self, i as int) is None,
    {
        match self {
            JsonValue::Array(a) => if i < a.len() {
                Some(&a[i])
            } else {
                None
            },
            _ => None,
        }
    }

    /// `Value::as_str`.
    pub fn as_str(&self) -> (r: Option<&String>)
        ensures
            r matches Some(s) ==> jstr(*self) == Some(s@),
            r is None ==> jstr(*self) is None,
    {
        match self {
            JsonValue::Str(s) => Some(s),
            _ => None,
        }
    }

    /// `Value::as_i64`.
    pub fn as_i64(&self) -> (r: Option<i64>)
        ensures
            r == ji64(*self),
    {
        match self {
            JsonValue::Number(n) => *n,
            _ => None,
        }
    }

    /// `Value::as_array`.
    pub fn as_array(&self) -> (r: Option<&Vec<JsonValue>>)
        ensures
            r matches Some(a) ==> jarr(*self) == Some(a@),
            r is None ==> jarr(*self) is None,
    {
        match self {
            JsonValue::Array(a) => Some(a),
            _ => None,
        }
    }

    /// `Value == String`: the value is a string with that text.
    pub fn eq_str(&self, s: &String) -> (r: bool)
        ensures
            r == (jstr(*self) == Some(s@)),
    {
        match self {
            JsonValue::Str(t) => *t == *s,
            _ => false,
        }
    }
}

#[verifier::external_type_specification]
#[verifier::external_body]
pub struct ExSerdeValue(serde_json::Value);

/// The JSON value that `serde_json::from_slice` reads from `bytes`, taken
/// as a `JsonValue`; `None` when `serde_json` refuses the bytes. It depends
/// on the bytes alone (`serde_json`'s maps walk their keys in a fixed
/// order).
pub uninterp spec fn json_parsed(bytes: Seq<u8>) -> Option<JsonValue>;

/// Trusted: `serde_json::from_slice::<serde_json::Value>`, its value taken as
/// a `JsonValue` by `json_value_of`; claims that the result is
/// `json_parsed(bytes)`.
#[verifier::external_body]
pub(crate) fn parse_json(bytes: &[u8]) -> (r: Option<JsonValue>)
    ensures
        r == json_parsed(bytes@),
{
    match serde_json::from_slice::<serde_json::Value>(bytes) {
        Ok(v) => Some(json_value_of(&v)),
        Err(_) => None,
    }
}

/// The conversion half of `parse_json` (trusted with it): a
/// `serde_json::Value` as a `JsonValue`, variant for variant, a number by
/// its `as_i64`, an array's elements and an object's members in order.
#[verifier::external_body]
fn json_value_of(v: &serde_json::Value) -> JsonValue {
    match v {
        serde_json::Value::Null => JsonValue::Null,
        serde_json::Value::Bool(b) => JsonValue::Bool(*b),
        serde_json::Value::Number(n) => JsonValue::Number(n.as_i64()),
        serde_json::Value::String(t) => JsonValue::Str(t.clone()),
        serde_json::Value::Array(a) => JsonValue::Array(a.iter().map(json_value_of).collect()),
        serde_json::Value::Object(o) => JsonValue::Object(o.iter().map(|(k, x)| (k.clone(), json_value_of(x))).collect()),
    }
}

} // verus!
