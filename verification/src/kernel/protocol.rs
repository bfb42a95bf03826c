//! Messages exchanged between agents.
use vstd::prelude::*;
use crate::text::same_text;

verus! {

/// A JSON value. Numbers are kept as their decimal text; an object lists its
/// members in order.
#[derive(Debug)]
pub enum JsonValue {
    Null,
    Bool(bool),
    Number(String),
    Str(String),
    Array(Vec<JsonValue>),
    Object(Vec<(String, JsonValue)>),
}

/// The text of a JSON string value; `None` for any other value.
pub open spec fn str_of(v: JsonValue) -> Option<Seq<char>> {
    match v {
        JsonValue::Str(s) => Some(s@),
        _ => None,
    }
}

/// Two JSON values with the same content: equal scalars (numbers and strings
/// by their text), and arrays and objects whose members have the same keys and
/// content, in order.
pub open spec fn same_json(a: JsonValue, b: JsonValue) -> bool
    decreases a,
{
    match a {
        JsonValue::Null => b is Null,
        JsonValue::Bool(x) => b matches JsonValue::Bool(y) && x == y,
        JsonValue::Number(x) => b matches JsonValue::Number(y) && x@ == y@,
        JsonValue::Str(x) => b matches JsonValue::Str(y) && x@ == y@,
        JsonValue::Array(x) => match b {
            JsonValue::Array(y) => x@.len() == y@.len() && forall|i: int|
                0 <= i < x@.len() ==> #[trigger] same_json(x@[i], y@[i]),
            _ => false,
        },
        JsonValue::Object(x) => match b {
            JsonValue::Object(y) => x@.len() == y@.len() && forall|i: int|
                0 <= i < x@.len() ==> x@[i].0@ == y@[i].0@ && #[trigger] same_json(
                    x@[i].1,
                    y@[i].1,
                ),
            _ => false,
        },
    }
}

/// A copy of `v`, member by member.
fn copy_json(v: &JsonValue) -> (r: JsonValue)
    ensures
        same_json(*v, r),
    decreases v,
{
    match v {
        JsonValue::Null => JsonValue::Null,
        JsonValue::Bool(b) => JsonValue::Bool(*b),
        JsonValue::Number(n) => JsonValue::Number(n.clone()),
        JsonValue::Str(t) => JsonValue::Str(t.clone()),
        JsonValue::Array(items) => {
            let mut out: Vec<JsonValue> = Vec::new();
            let mut i: usize = 0;
            while i < items.len()
                invariant
                    i <= items.len(),
                    *v == JsonValue::Array(*items),
                    out@.len() == i,
                    forall|j: int| #![trigger items@[j]] 0 <= j < i ==> same_json(items@[j], out@[j]),
                decreases items.len() - i,
            {
                proof {
                    vstd::std_specs::vec::axiom_vec_index_decreases(*items, i as int);
                    assert(decreases_to!(*v => v->Array_0));
                }
                let item = copy_json(&items[i]);
                let ghost before = out@;
                out.push(item);
                assert forall|j: int| #![trigger items@[j]] 0 <= j < i + 1 implies same_json(
                    items@[j],
                    out@[j],
                ) by {
                    if j < i {
                        assert(out@[j] == before[j]);
                    }
                }
                i += 1;
            }
            JsonValue::Array(out)
        },
        JsonValue::Object(members) => {
            let mut out: Vec<(String, JsonValue)> = Vec::new();
            let mut i: usize = 0;
            while i < members.len()
                invariant
                    i <= members.len(),
                    *v == JsonValue::Object(*members),
                    out@.len() == i,
                    forall|j: int| #![trigger members@[j]]
                        0 <= j < i ==> members@[j].0@ == out@[j].0@ && same_json(
                            members@[j].1,
                            out@[j].1,
                        ),
                decreases members.len() - i,
            {
                proof {
                    vstd::std_specs::vec::axiom_vec_index_decreases(*members, i as int);
                    assert(decreases_to!(*v => v->Object_0));
                    assert(decreases_to!(members[i as int] => members[i as int].1));
                }
                let entry = &members[i];
                let key = entry.0.clone();
                let value = copy_json(&entry.1);
                let ghost before = out@;
                out.push((key, value));
                assert forall|j: int| #![trigger members@[j]] 0 <= j < i + 1 implies members@[j].0@
                    == out@[j].0@ && same_json(members@[j].1, out@[j].1) by {
                    if j < i {
                        assert(out@[j] == before[j]);
                    }
                }
                i += 1;
            }
            JsonValue::Object(out)
        },
    }
}

impl Clone for JsonValue {
    fn clone(&self) -> (r: Self)
        ensures
            same_json(*self, r),
    {
        copy_json(self)
    }
}

/// Whether an object has a member named `key`.
pub open spec fn has_member(m: Seq<(String, JsonValue)>, key: Seq<char>) -> bool {
    exists|i: int| 0 <= i < m.len() && (#[trigger] m[i]).0@ == key
}

impl JsonValue {
    /// The value of the first member named `key`, when this is an object that
    /// has one.
    pub fn get(&self, key: &str) -> (r: Option<&JsonValue>)
        ensures
            match r {
                Some(x) => self matches JsonValue::Object(m) && exists|i: int|
                    {
                        &&& 0 <= i < m@.len()
                        &&& (#[trigger] m@[i]).0@ == key@
                        &&& *x == m@[i].1
                        &&& forall|j: int| 0 <= j < i ==> (#[trigger] m@[j]).0@ != key@
                    },
                None => !(self matches JsonValue::Object(m) && has_member(m@, key@)),
            },
    {
        match self {
            JsonValue::Object(members) => {
                let mut i: usize = 0;
                while i < members.len()
                    invariant
                        i <= members.len(),
                        *self == JsonValue::Object(*members),
                        forall|j: int| 0 <= j < i ==> (#[trigger] members@[j]).0@ != key@,
                    decreases members.len() - i,
                {
                    if same_text(members[i].0.as_str(), key) {
                        let found = &members[i].1;
                        assert((self->Object_0)@[i as int].0@ == key@ && *found == (
                        self->Object_0)@[i as int].1);
                        assert(forall|j: int|
                            0 <= j < i ==> (#[trigger] (self->Object_0)@[j]).0@ != key@);
                        return Some(found);
                    }
                    i += 1;
                }
                assert(!has_member(members@, key@));
                None
            },
            _ => None,
        }
    }

    /// The text of a string value.
    pub fn as_str(&self) -> (r: Option<&str>)
        ensures
            match r {
                Some(t) => str_of(*self) == Some(t@),
                None => str_of(*self) is None,
            },
    {
        match self {
            JsonValue::Str(s) => Some(s.as_str()),
            _ => None,
        }
    }
}

/// A message between agents. Identifiers are the 128-bit values of UUIDs and
/// the timestamp is in milliseconds since the Unix epoch (UTC).
#[derive(Debug, Clone)]
pub struct AgentMessage {
    pub id: u128,
    pub from: String,
    pub to: String,
    pub payload: JsonValue,
    pub correlation_id: Option<u128>,
    pub timestamp_ms: i64,
}

/// Whether a 128-bit UUID value carries version 4 and the RFC 4122 variant.
pub open spec fn is_v4_uuid(v: u128) -> bool {
    (v >> 76u128) & 0xfu128 == 4 && (v >> 62u128) & 0x3u128 == 2
}

/// Calls `uuid::Uuid::new_v4` and returns the value as a `u128`. The bits are
/// random; the crate sets the version to 4 and the variant to RFC 4122.
#[verifier::external_body]
pub(crate) fn new_uuid() -> (r: u128)
    ensures
        is_v4_uuid(r),
{
    uuid::Uuid::new_v4().as_u128()
}

/// Reads `std::time::SystemTime::now` and returns the milliseconds since the
/// Unix epoch, or 0 when the clock is set before it. The value depends on the
/// clock; nothing is promised of it.
#[verifier::external_body]
pub(crate) fn now_millis() -> (r: i64) {
    std::time::SystemTime::now().duration_since(std::time::UNIX_EPOCH).map(|d| d.as_millis() as i64).unwrap_or(0)
}

impl AgentMessage {
    /// A fresh message from `from` to `to` with a new random identifier, the
    /// current time and no correlation.
    pub fn new(from: String, to: String, payload: JsonValue) -> (r: Self)
        ensures
            r.from == from,
            r.to == to,
            r.payload == payload,
            r.correlation_id is None,
            is_v4_uuid(r.id),
    {
        AgentMessage {
            id: new_uuid(),
            from,
            to,
            payload,
            correlation_id: None,
            timestamp_ms: now_millis(),
        }
    }

    /// The same message, correlated with `correlation_id`.
    pub fn with_correlation(self, correlation_id: u128) -> (r: Self)
        ensures
            r == (AgentMessage { correlation_id: Some(correlation_id), ..self }),
    {
        let mut m = self;
        m.correlation_id = Some(correlation_id);
        m
    }
}

} // verus!
