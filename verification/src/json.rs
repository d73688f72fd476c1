//! JSON response bodies as plain data: the parse itself is serde_json's,
//! the parsed value is carried over into a type the library's logic can
//! read field by field.

use vstd::prelude::*;

verus! {

/// A parsed JSON value as plain data. A number carries its value as `u64`
/// where it has one (a non-negative integer that fits), and nothing
/// otherwise; the logic in view reads no other numbers. An object's fields
/// come in the order the parser hands them out, with unique names.
#[derive(Debug)]
pub enum JsonValue {
    Null,
    Bool(bool),
    Num(Option<u64>),
    Str(String),
    Arr(Vec<JsonValue>),
    Obj(Vec<(String, JsonValue)>),
}

#[verifier::external_type_specification]
#[verifier::external_body]
pub struct ExValue(serde_json::Value);

/// Relies on the variants of serde_json::Value: each is carried over as
/// plain data, one arm per variant, a number as its `u64` value where
/// `as_u64` gives one.
#[verifier::external_body]
fn plain_json_value(v: serde_json::Value) -> JsonValue {
    match v {
        serde_json::Value::Null => JsonValue::Null,
        serde_json::Value::Bool(b) => JsonValue::Bool(b),
        serde_json::Value::Number(n) => JsonValue::Num(n.as_u64()),
        serde_json::Value::String(s) => JsonValue::Str(s),
        serde_json::Value::Array(a) => JsonValue::Arr(
            a.into_iter().map(plain_json_value).collect(),
        ),
        serde_json::Value::Object(m) => JsonValue::Obj(
            m.into_iter().map(|(k, x)| (k, plain_json_value(x))).collect(),
        ),
    }
}

/// What serde_json parses the bytes to, if they are valid JSON, carried
/// over as plain data. The result depends on the bytes alone.
pub uninterp spec fn json_of(b: Seq<u8>) -> Option<JsonValue>;

/// Relies on serde_json::from_slice::<serde_json::Value>: whether the bytes
/// parse, and to what value, depends on the bytes alone. The error case
/// carries serde_json's own message, of which nothing is stated.
#[verifier::external_body]
pub(crate) fn parse_json(b: &[u8]) -> (r: Result<JsonValue, String>)
    ensures
        (r is Ok) == (json_of(b@) is Some),
        r is Ok ==> r->Ok_0 == json_of(b@)->0,
{
    match serde_json::from_slice::<serde_json::Value>(b) {
        Ok(v) => Ok(plain_json_value(v)),
        Err(e) => Err(e.to_string()),
    }
}

/// The value of the first field named `key`, if there is one.
pub open spec fn obj_get(fields: Seq<(String, JsonValue)>, key: Seq<char>) -> Option<JsonValue>
    decreases fields.len(),
{
    if fields.len() == 0 {
        None
    } else if fields[0].0@ == key {
        Some(fields[0].1)
    } else {
        obj_get(fields.drop_first(), key)
    }
}

/// Find the value of the first field named `key`.
pub fn obj_get_exec<'a>(fields: &'a Vec<(String, JsonValue)>, key: &String) -> (r: Option<
    &'a JsonValue,
>)
    ensures
        match r {
            Some(v) => obj_get(fields@, key@) == Some(*v),
            None => obj_get(fields@, key@) is None,
        },
{
    let n = fields.len();
    let mut i: usize = 0;
    while i < n
        invariant
            0 <= i <= n,
            n == fields@.len(),
            forall|k: int| 0 <= k < i ==> fields@[k].0@ != key@,
        decreases n - i,
    {
        let f = &fields[i];
        if f.0.eq(key) {
            proof {
                lemma_obj_get_at(fields@, key@, i as int);
            }
            return Some(&f.1);
        }
        i = i + 1;
    }
    proof {
        lemma_obj_get_none(fields@, key@);
    }
    None
}

/// A field at `i` whose name matches, with none before it, is what
/// `obj_get` returns.
proof fn lemma_obj_get_at(fields: Seq<(String, JsonValue)>, key: Seq<char>, i: int)
    requires
        0 <= i < fields.len(),
        fields[i].0@ == key,
        forall|k: int| 0 <= k < i ==> fields[k].0@ != key,
    ensures
        obj_get(fields, key) == Some(fields[i].1),
    decreases i,
{
    if i > 0 {
        lemma_obj_get_at(fields.drop_first(), key, i - 1);
    }
}

/// No field of a matching name means `obj_get` returns nothing.
proof fn lemma_obj_get_none(fields: Seq<(String, JsonValue)>, key: Seq<char>)
    requires
        forall|k: int| 0 <= k < fields.len() ==> fields[k].0@ != key,
    ensures
        obj_get(fields, key) is None,
    decreases fields.len(),
{
    if fields.len() > 0 {
        lemma_obj_get_none(fields.drop_first(), key);
    }
}

} // verus!
