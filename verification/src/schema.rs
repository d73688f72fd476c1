//! The response record of the key-listing call, and how it is read out of a
//! parsed JSON value.

use vstd::prelude::*;

use crate::json::JsonValue;
use crate::json::obj_get;
use crate::json::obj_get_exec;

verus! {

/// A point in time: seconds since the Unix epoch, and the nanoseconds
/// within that second.
#[derive(Debug, Clone, Copy, PartialEq, Eq, Structural)]
pub struct Timestamp {
    pub secs: i64,
    pub nanos: u32,
}

/// The instant an RFC 3339 timestamp string names, if it parses. The result
/// depends on the characters alone.
pub uninterp spec fn rfc3339_of(s: Seq<char>) -> Option<Timestamp>;

/// Relies on chrono::DateTime::parse_from_rfc3339, and on the timestamp and
/// timestamp_subsec_nanos accessors of the parsed value: whether the string
/// parses, and the instant it names, depend on the characters alone.
#[verifier::external_body]
pub(crate) fn parse_rfc3339(s: &str) -> (r: Option<Timestamp>)
    ensures
        r == rfc3339_of(s@),
{
    match chrono::DateTime::parse_from_rfc3339(s) {
        Ok(dt) => Some(Timestamp { secs: dt.timestamp(), nanos: dt.timestamp_subsec_nanos() }),
        Err(_) => None,
    }
}

/// One API key record, as the server reports it.
#[derive(Debug, Clone)]
pub struct ApiKey {
    pub id: u64,
    pub name: String,
    pub role: String,
    pub expiration: Option<Timestamp>,
}

/// What an object's fields yield as the record's expiration: nothing set
/// when the field is absent or null, the parsed instant when it is a string
/// that parses, and no record at all otherwise.
pub open spec fn spec_expiration_of(fields: Seq<(String, JsonValue)>) -> Option<
    Option<Timestamp>,
> {
    match obj_get(fields, "expiration"@) {
        None => Some(None),
        Some(v) => match v {
            JsonValue::Null => Some(None),
            JsonValue::Str(s) => match rfc3339_of(s@) {
                Some(t) => Some(Some(t)),
                None => None,
            },
            _ => None,
        },
    }
}

/// What a JSON value yields as one API key record: an object whose `id` is
/// a non-negative integer, whose `name` and `role` are strings, and whose
/// `expiration` is absent, null, or an RFC 3339 string.
pub open spec fn spec_api_key_of(v: JsonValue) -> Option<ApiKey> {
    match v {
        JsonValue::Obj(fields) => match (
            obj_get(fields@, "id"@),
            obj_get(fields@, "name"@),
            obj_get(fields@, "role"@),
        ) {
            (
                Some(JsonValue::Num(Some(id))),
                Some(JsonValue::Str(name)),
                Some(JsonValue::Str(role)),
            ) => match spec_expiration_of(fields@) {
                Some(expiration) => Some(ApiKey { id, name, role, expiration }),
                None => None,
            },
            _ => None,
        },
        _ => None,
    }
}

/// What a sequence of JSON values yields as records: all of them, in order,
/// or nothing as soon as one of them yields nothing.
pub open spec fn spec_api_keys_of(items: Seq<JsonValue>) -> Option<Seq<ApiKey>>
    decreases items.len(),
{
    if items.len() == 0 {
        Some(Seq::empty())
    } else {
        match (spec_api_keys_of(items.drop_last()), spec_api_key_of(items.last())) {
            (Some(s), Some(k)) => Some(s.push(k)),
            _ => None,
        }
    }
}

/// What a JSON value yields as the key-listing response: an array of
/// records.
pub open spec fn spec_api_key_list_of(v: JsonValue) -> Option<Seq<ApiKey>> {
    match v {
        JsonValue::Arr(items) => spec_api_keys_of(items@),
        _ => None,
    }
}

impl ApiKey {
    /// Read one API key record from a parsed JSON value. Nothing is
    /// returned when the shape differs — a record is never partially
    /// populated.
    pub fn from_json(v: &JsonValue) -> (r: Option<ApiKey>)
        ensures
            r == spec_api_key_of(*v),
    {
        let fields = match v {
            JsonValue::Obj(fields) => fields,
            _ => {
                return None;
            },
        };
        let id_key = "id".to_owned();
        let id = match obj_get_exec(fields, &id_key) {
            Some(JsonValue::Num(Some(n))) => *n,
            _ => {
                return None;
            },
        };
        let name_key = "name".to_owned();
        let name = match obj_get_exec(fields, &name_key) {
            Some(JsonValue::Str(s)) => s.clone(),
            _ => {
                return None;
            },
        };
        let role_key = "role".to_owned();
        let role = match obj_get_exec(fields, &role_key) {
            Some(JsonValue::Str(s)) => s.clone(),
            _ => {
                return None;
            },
        };
        let exp_key = "expiration".to_owned();
        let expiration = match obj_get_exec(fields, &exp_key) {
            None => None,
            Some(JsonValue::Null) => None,
            Some(JsonValue::Str(s)) => match parse_rfc3339(s.as_str()) {
                Some(t) => Some(t),
                None => {
                    return None;
                },
            },
            Some(_) => {
                return None;
            },
        };
        Some(ApiKey { id, name, role, expiration })
    }
}

/// A member that yields no record means the whole sequence yields nothing.
proof fn lemma_api_keys_of_none(items: Seq<JsonValue>, i: int)
    requires
        0 <= i < items.len(),
        spec_api_key_of(items[i]) is None,
    ensures
        spec_api_keys_of(items) is None,
    decreases items.len(),
{
    if i < items.len() - 1 {
        lemma_api_keys_of_none(items.drop_last(), i);
    }
}

/// Read the key-listing response from a parsed JSON value: an array of
/// records, all of them or none.
pub fn api_keys_from_json(v: &JsonValue) -> (r: Option<Vec<ApiKey>>)
    ensures
        (r is Some) == (spec_api_key_list_of(*v) is Some),
        r is Some ==> r->0@ == spec_api_key_list_of(*v)->0,
{
    let items = match v {
        JsonValue::Arr(items) => items,
        _ => {
            return None;
        },
    };
    proof {
        assert(spec_api_key_list_of(*v) == spec_api_keys_of(items@));
    }
    let n = items.len();
    let mut out: Vec<ApiKey> = Vec::new();
    let mut i: usize = 0;
    while i < n
        invariant
            0 <= i <= n,
            n == items@.len(),
            spec_api_key_list_of(*v) == spec_api_keys_of(items@),
            spec_api_keys_of(items@.take(i as int)) == Some(out@),
        decreases n - i,
    {
        match ApiKey::from_json(&items[i]) {
            Some(k) => {
                out.push(k);
            },
            None => {
                proof {
                    lemma_api_keys_of_none(items@, i as int);
                }
                return None;
            },
        }
        proof {
            assert(items@.take(i + 1).drop_last() =~= items@.take(i as int));
            assert(items@.take(i + 1).last() == items@[i as int]);
        }
        i = i + 1;
    }
    proof {
        assert(items@.take(n as int) =~= items@);
    }
    Some(out)
}

} // verus!
