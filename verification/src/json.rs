//! JSON documents as the log parsers read them.

use vstd::prelude::*;
use crate::text::{str_eq, split_char, split_on};

verus! {

/// A JSON number: its text as `serde_json` writes it, and its value where it is a
/// non-negative or a signed 64-bit integer.
#[derive(Debug)]
pub struct JsonNumber {
    pub text: String,
    pub as_u64: Option<u64>,
    pub as_i64: Option<i64>,
}

/// A JSON value. Objects keep their members in the order the document reader walks them (for
/// parsed documents, ascending key order), each key once.
#[derive(Debug)]
pub enum JsonValue {
    Null,
    Bool(bool),
    Number(JsonNumber),
    Str(String),
    Array(Vec<JsonValue>),
    Object(Vec<(String, JsonValue)>),
}

/// Index of the first member of `members` named `key`.
pub open spec fn member_index(members: Seq<(String, JsonValue)>, key: Seq<char>) -> Option<int> {
    if exists|i: int| 0 <= i < members.len() && members[i].0@ == key {
        Some(choose|i: int| 0 <= i < members.len() && members[i].0@ == key
            && forall|j: int| 0 <= j < i ==> members[j].0@ != key)
    } else {
        None
    }
}

/// `Value::get(key)`: the member named `key` of an object; nothing for other values.
pub open spec fn json_get(v: JsonValue, key: Seq<char>) -> Option<JsonValue> {
    match v {
        JsonValue::Object(m) => match member_index(m@, key) {
            Some(i) => Some(m@[i].1),
            None => None,
        },
        _ => None,
    }
}

/// The value at a path of member names, each step a `Value::get`.
pub open spec fn json_path(v: JsonValue, parts: Seq<Seq<char>>) -> Option<JsonValue>
    decreases parts.len(),
{
    if parts.len() == 0 {
        Some(v)
    } else {
        match json_get(v, parts[0]) {
            Some(x) => json_path(x, parts.drop_first()),
            None => None,
        }
    }
}

/// The value at a dotted path (`a.b.c`).
pub open spec fn json_dotted(v: JsonValue, path: Seq<char>) -> Option<JsonValue> {
    json_path(v, split_char(path, '.'))
}

/// The string at a dotted path, if it is a string.
pub open spec fn json_dotted_str(v: JsonValue, path: Seq<char>) -> Option<Seq<char>> {
    json_str(json_dotted(v, path))
}

/// The value `serde_json::from_str` reads from a whole text.
pub uninterp spec fn json_document(text: Seq<char>) -> Option<JsonValue>;

/// The first value a `serde_json` stream deserializer reads from a text.
pub uninterp spec fn json_stream_first(text: Seq<char>) -> Option<JsonValue>;

/// The compact text `serde_json` writes for a value (`Value::to_string`).
pub uninterp spec fn json_text(v: JsonValue) -> Seq<char>;

#[verifier::external_type_specification]
#[verifier::external_body]
pub struct ExSerdeValue(serde_json::Value);

/// `serde_json::Value` as the library's value: numbers keep their text, objects their members
/// in the order `serde_json`'s map walks them, which (without its `preserve_order` feature) is
/// ascending key order, not document order.
#[verifier::external_body]
fn from_serde(v: &serde_json::Value) -> JsonValue {
    match v {
        serde_json::Value::Null => JsonValue::Null,
        serde_json::Value::Bool(b) => JsonValue::Bool(*b),
        serde_json::Value::Number(n) => JsonValue::Number(JsonNumber { text: n.to_string(), as_u64: n.as_u64(), as_i64: n.as_i64() }),
        serde_json::Value::String(s) => JsonValue::Str(s.clone()),
        serde_json::Value::Array(a) => JsonValue::Array(a.iter().map(from_serde).collect()),
        serde_json::Value::Object(m) => JsonValue::Object(m.iter().map(|(k, x)| (k.clone(), from_serde(x))).collect()),
    }
}

/// The library's value as `serde_json::Value`.
#[verifier::external_body]
fn to_serde(v: &JsonValue) -> serde_json::Value {
    match v {
        JsonValue::Null => serde_json::Value::Null,
        JsonValue::Bool(b) => serde_json::Value::Bool(*b),
        JsonValue::Number(n) => serde_json::from_str(&n.text).unwrap_or(serde_json::Value::Null),
        JsonValue::Str(s) => serde_json::Value::String(s.clone()),
        JsonValue::Array(a) => serde_json::Value::Array(a.iter().map(to_serde).collect()),
        JsonValue::Object(m) => serde_json::Value::Object(m.iter().map(|(k, x)| (k.clone(), to_serde(x))).collect()),
    }
}

/// `serde_json::from_str::<Value>(text)`.
#[verifier::external_body]
pub fn parse_json_document(text: &str) -> (r: Option<JsonValue>)
    ensures
        r == json_document(text@),
{
    serde_json::from_str::<serde_json::Value>(text).ok().map(|v| from_serde(&v))
}

/// The first item of `serde_json::Deserializer::from_str(text).into_iter::<Value>()`.
#[verifier::external_body]
pub fn parse_json_stream_first(text: &str) -> (r: Option<JsonValue>)
    ensures
        r == json_stream_first(text@),
{
    match serde_json::Deserializer::from_str(text).into_iter::<serde_json::Value>().next() {
        Some(Ok(v)) => Some(from_serde(&v)),
        _ => None,
    }
}

/// `Value::to_string`: the compact JSON text of a value.
#[verifier::external_body]
pub fn json_compact(v: &JsonValue) -> (s: String)
    ensures
        s@ == json_text(*v),
{
    to_serde(v).to_string()
}

/// `Value::as_str`.
pub open spec fn json_str(v: Option<JsonValue>) -> Option<Seq<char>> {
    match v {
        Some(JsonValue::Str(s)) => Some(s@),
        _ => None,
    }
}

/// `Value::as_u64`.
pub open spec fn json_u64(v: Option<JsonValue>) -> Option<u64> {
    match v {
        Some(JsonValue::Number(n)) => n.as_u64,
        _ => None,
    }
}

proof fn lemma_first_member(members: Seq<(String, JsonValue)>, key: Seq<char>, i: int)
    requires
        0 <= i < members.len(),
        members[i].0@ == key,
        forall|j: int| 0 <= j < i ==> members[j].0@ != key,
    ensures
        member_index(members, key) == Some(i),
{
    let k = choose|k: int| 0 <= k < members.len() && members[k].0@ == key
        && forall|j: int| 0 <= j < k ==> members[j].0@ != key;
    if k < i {
        assert(members[k].0@ != key);
    } else if k > i {
        assert(members[i].0@ != key);
    }
}

impl JsonValue {
    /// `Value::get(key)`.
    pub fn get(&self, key: &str) -> (r: Option<&JsonValue>)
        ensures
            r matches Some(x) ==> json_get(*self, key@) == Some(*x),
            r is None ==> json_get(*self, key@) is None,
    {
        match self {
            JsonValue::Object(m) => {
                let mut i: usize = 0;
                while i < m.len()
                    invariant
                        0 <= i <= m@.len(),
                        *self == JsonValue::Object(*m),
                        forall|j: int| 0 <= j < i ==> m@[j].0@ != key@,
                    decreases m@.len() - i,
                {
                    if str_eq(m[i].0.as_str(), key) {
                        proof {
                            lemma_first_member(m@, key@, i as int);
                            assert(json_get(*self, key@) == Some(m@[i as int].1));
                        }
                        return Some(&m[i].1);
                    }
                    i += 1;
                }
                None
            }
            _ => None,
        }
    }

    /// The member `key` taken out of an object; the value itself back when it has none.
    pub fn take_member(v: JsonValue, key: &str) -> (r: Result<JsonValue, JsonValue>)
        ensures
            r matches Ok(x) ==> json_get(v, key@) == Some(x),
            r matches Err(w) ==> w == v && json_get(v, key@) is None,
    {
        let ghost orig = v;
        match v.get(key) {
            None => Err(v),
            Some(_) => {
                match v {
                    JsonValue::Object(mut m) => {
                        let ghost m0 = m@;
                        let mut i: usize = 0;
                        while i < m.len()
                            invariant
                                0 <= i <= m@.len(),
                                m@ == m0,
                                orig matches JsonValue::Object(v0) && v0@ == m0,
                                orig == v,
                                json_get(orig, key@) is Some,
                                forall|j: int| 0 <= j < i ==> m0[j].0@ != key@,
                            decreases m@.len() - i,
                        {
                            if str_eq(m[i].0.as_str(), key) {
                                proof { lemma_first_member(m0, key@, i as int); }
                                assert(json_get(orig, key@) == Some(m0[i as int].1));
                                let pair = m.remove(i);
                                assert(pair == m0[i as int]);
                                let (_, x) = pair;
                                assert(x == m0[i as int].1);
                                return Ok(x);
                            }
                            i += 1;
                        }
                        proof {
                            let k = choose|k: int| 0 <= k < m0.len() && m0[k].0@ == key@
                                && forall|j: int| 0 <= j < k ==> m0[j].0@ != key@;
                            assert(m0[k].0@ != key@);
                        }
                        Err(JsonValue::Object(m))
                    }
                    other => Err(other),
                }
            }
        }
    }

    /// The value at a dotted path of member names.
    pub fn get_path(&self, path: &str) -> (r: Option<&JsonValue>)
        ensures
            r matches Some(x) ==> json_dotted(*self, path@) == Some(*x),
            r is None ==> json_dotted(*self, path@) is None,
    {
        let parts = split_on(path, '.');
        let ghost ps = parts@.map_values(|p: String| p@);
        let mut cur: &JsonValue = self;
        let mut i: usize = 0;
        assert(ps.subrange(0, ps.len() as int) =~= ps);
        while i < parts.len()
            invariant
                0 <= i <= parts@.len(),
                ps == parts@.map_values(|p: String| p@),
                ps == split_char(path@, '.'),
                json_path(*self, ps) == json_path(*cur, ps.subrange(i as int, ps.len() as int)),
            decreases parts@.len() - i,
        {
            let ghost rest = ps.subrange(i as int, ps.len() as int);
            assert(rest[0] == parts@[i as int]@);
            assert(rest.drop_first() =~= ps.subrange(i + 1, ps.len() as int));
            match cur.get(parts[i].as_str()) {
                Some(x) => {
                    cur = x;
                }
                None => {
                    return None;
                }
            }
            i += 1;
        }
        assert(ps.subrange(i as int, ps.len() as int).len() == 0);
        Some(cur)
    }

    /// `Value::as_str`.
    pub fn as_str(&self) -> (r: Option<&String>)
        ensures
            r matches Some(s) ==> *self == JsonValue::Str(*s),
            r is None ==> !(*self is Str),
    {
        match self {
            JsonValue::Str(s) => Some(s),
            _ => None,
        }
    }

    /// `Value::as_u64`.
    pub fn as_u64(&self) -> (r: Option<u64>)
        ensures
            r == json_u64(Some(*self)),
    {
        match self {
            JsonValue::Number(n) => n.as_u64,
            _ => None,
        }
    }
}

} // verus!
