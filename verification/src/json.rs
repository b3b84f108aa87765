//! A JSON document as plain values: what the parsers read from JSON-LD,
//! Next.js page props and tracking pushes.
//!
//! Numbers keep their textual form (as `serde_json` prints them), so prices
//! are never routed through floating point.

use vstd::prelude::*;
use crate::text::{chars_eq, chars_of};

verus! {

/// A JSON value. Object members keep their order; keys are unique in
/// documents produced by a JSON parser.
#[derive(Debug)]
pub enum JsonValue {
    Null,
    Bool(bool),
    /// A number, in the text form the JSON parser prints for it.
    Number(String),
    String(String),
    Array(Vec<JsonValue>),
    Object(Vec<(String, JsonValue)>),
}

/// Index of the first member whose key is `key`, or the length when none is.
pub open spec fn first_key(members: Seq<(String, JsonValue)>, key: Seq<char>) -> int
    decreases members.len(),
{
    if members.len() == 0 {
        0
    } else if members[0].0@ == key {
        0
    } else {
        1 + first_key(members.drop_first(), key)
    }
}

/// The member `key` of an object (the first one with that key); `None` for
/// other values or absent keys.
pub open spec fn get_spec(v: JsonValue, key: Seq<char>) -> Option<JsonValue> {
    match v {
        JsonValue::Object(members) => {
            let i = first_key(members@, key);
            if i < members@.len() {
                Some(members@[i].1)
            } else {
                None
            }
        },
        _ => None,
    }
}

/// `get_spec` through an optional value.
pub open spec fn get_opt(v: Option<JsonValue>, key: Seq<char>) -> Option<JsonValue> {
    match v {
        Some(x) => get_spec(x, key),
        None => None,
    }
}

/// The text of a string value.
pub open spec fn as_str_spec(v: Option<JsonValue>) -> Option<Seq<char>> {
    match v {
        Some(JsonValue::String(s)) => Some(s@),
        _ => None,
    }
}

/// The value of a boolean.
pub open spec fn as_bool_spec(v: Option<JsonValue>) -> Option<bool> {
    match v {
        Some(JsonValue::Bool(b)) => Some(b),
        _ => None,
    }
}

/// The text of a string or number value.
pub open spec fn scalar_text(v: Option<JsonValue>) -> Option<Seq<char>> {
    match v {
        Some(JsonValue::String(s)) => Some(s@),
        Some(JsonValue::Number(n)) => Some(n@),
        _ => None,
    }
}

/// The elements of an array.
pub open spec fn as_array_spec(v: Option<JsonValue>) -> Option<Seq<JsonValue>> {
    match v {
        Some(JsonValue::Array(a)) => Some(a@),
        _ => None,
    }
}

/// View of an optional owned string.
pub open spec fn opt_view(o: Option<String>) -> Option<Seq<char>> {
    match o {
        Some(s) => Some(s@),
        None => None,
    }
}

/// Whether a key is present.
pub open spec fn has_key(v: JsonValue, key: Seq<char>) -> bool {
    get_spec(v, key) is Some
}

proof fn lemma_first_key_bounds(members: Seq<(String, JsonValue)>, key: Seq<char>)
    ensures
        0 <= first_key(members, key) <= members.len(),
    decreases members.len(),
{
    if members.len() > 0 {
        lemma_first_key_bounds(members.drop_first(), key);
    }
}

proof fn lemma_first_key_step(members: Seq<(String, JsonValue)>, key: Seq<char>, i: int)
    requires
        0 <= i < members.len(),
        forall|k: int| 0 <= k < i ==> (#[trigger] members[k]).0@ != key,
    ensures
        members[i].0@ == key ==> first_key(members, key) == i,
        first_key(members, key) >= i,
    decreases i,
{
    lemma_first_key_bounds(members, key);
    if i > 0 {
        assert(members[0].0@ != key);
        assert forall|k: int| 0 <= k < i - 1 implies (#[trigger] members.drop_first()[k]).0@ != key by {
            assert(members.drop_first()[k] == members[k + 1]);
        }
        lemma_first_key_step(members.drop_first(), key, i - 1);
    }
}

proof fn lemma_first_key_none(members: Seq<(String, JsonValue)>, key: Seq<char>)
    requires
        forall|k: int| 0 <= k < members.len() ==> (#[trigger] members[k]).0@ != key,
    ensures
        first_key(members, key) == members.len(),
    decreases members.len(),
{
    if members.len() > 0 {
        assert(members[0].0@ != key);
        assert forall|k: int| 0 <= k < members.len() - 1 implies (#[trigger] members.drop_first()[k]).0@ != key by {
            assert(members.drop_first()[k] == members[k + 1]);
        }
        lemma_first_key_none(members.drop_first(), key);
    }
}

impl JsonValue {
    /// The member `key` of an object.
    pub fn get(&self, key: &str) -> (r: Option<&JsonValue>)
        ensures
            match r {
                Some(x) => get_spec(*self, key@) == Some(*x),
                None => get_spec(*self, key@) is None,
            },
    {
        match self {
            JsonValue::Object(members) => {
                let k = chars_of(key);
                let mut i: usize = 0;
                while i < members.len()
                    invariant
                        i <= members@.len(),
                        k@ == key@,
                        *self == JsonValue::Object(*members),
                        forall|j: int| 0 <= j < i ==> (#[trigger] members@[j]).0@ != key@,
                    decreases members.len() - i,
                {
                    let name = chars_of(members[i].0.as_str());
                    if chars_eq(name.as_slice(), k.as_slice()) {
                        proof {
                            assert(members@[i as int].0@ == key@);
                            lemma_first_key_step(members@, key@, i as int);
                            assert(first_key(members@, key@) == i);
                        }
                        return Some(&members[i].1);
                    }
                    i = i + 1;
                }
                proof {
                    lemma_first_key_none(members@, key@);
                }
                None
            },
            _ => None,
        }
    }

    /// The member `key` of an object, taken out of the value.
    pub fn take(self, key: &str) -> (r: Option<JsonValue>)
        ensures
            r == get_spec(self, key@),
    {
        let ghost original = self;
        match self {
            JsonValue::Object(members) => {
                let ghost whole = members@;
                assert(original == JsonValue::Object(members));
                let k = chars_of(key);
                let mut i: usize = 0;
                while i < members.len()
                    invariant
                        i <= members@.len(),
                        k@ == key@,
                        members@ == whole,
                        original == JsonValue::Object(members),
                        original == self,
                        forall|j: int| 0 <= j < i ==> (#[trigger] members@[j]).0@ != key@,
                    decreases members.len() - i,
                {
                    let name = chars_of(members[i].0.as_str());
                    if chars_eq(name.as_slice(), k.as_slice()) {
                        proof {
                            lemma_first_key_step(members@, key@, i as int);
                            assert(first_key(whole, key@) == i);
                        }
                        let mut ms = members;
                        let (_, value) = ms.remove(i);
                        return Some(value);
                    }
                    i = i + 1;
                }
                proof {
                    lemma_first_key_none(members@, key@);
                }
                None
            },
            _ => None,
        }
    }

    /// The text of a string value.
    pub fn as_str(&self) -> (r: Option<&str>)
        ensures
            match r {
                Some(s) => as_str_spec(Some(*self)) == Some(s@),
                None => as_str_spec(Some(*self)) is None,
            },
    {
        match self {
            JsonValue::String(s) => Some(s.as_str()),
            _ => None,
        }
    }

    /// The value of a boolean.
    pub fn as_bool(&self) -> (r: Option<bool>)
        ensures
            r == as_bool_spec(Some(*self)),
    {
        match self {
            JsonValue::Bool(b) => Some(*b),
            _ => None,
        }
    }

    /// The elements of an array.
    pub fn as_array(&self) -> (r: Option<&Vec<JsonValue>>)
        ensures
            match r {
                Some(a) => as_array_spec(Some(*self)) == Some(a@),
                None => as_array_spec(Some(*self)) is None,
            },
    {
        match self {
            JsonValue::Array(a) => Some(a),
            _ => None,
        }
    }

    /// Whether this is `null`.
    pub fn is_null(&self) -> (r: bool)
        ensures
            r == (*self is Null),
    {
        match self {
            JsonValue::Null => true,
            _ => false,
        }
    }
}

/// The text of a string or number value (a JSON string as is, a number as
/// the parser prints it).
pub fn value_as_string(value: &JsonValue) -> (r: Option<String>)
    ensures
        opt_view(r) == scalar_text(Some(*value)),
{
    match value {
        JsonValue::String(s) => Some(s.clone()),
        JsonValue::Number(n) => Some(n.clone()),
        _ => None,
    }
}

/// `get` through an optional value.
pub fn get_in<'a>(v: Option<&'a JsonValue>, key: &str) -> (r: Option<&'a JsonValue>)
    ensures
        match v {
            Some(x) => match r {
                Some(y) => get_spec(*x, key@) == Some(*y),
                None => get_spec(*x, key@) is None,
            },
            None => r is None,
        },
{
    match v {
        Some(x) => x.get(key),
        None => None,
    }
}


/// `serde_json::Value`, carried through the JSON parser wrapper.
#[verifier::external_type_specification]
#[verifier::external_body]
pub struct ExSerdeJsonValue(serde_json::Value);

/// The name for what `serde_json::from_str` gives back for a text, read as
/// a `JsonValue`: `None` when the text is not JSON.
pub uninterp spec fn json_parse(s: Seq<char>) -> Option<JsonValue>;

/// `serde_json::from_str::<serde_json::Value>`, read back as a `JsonValue`
/// (numbers as the text `Number::to_string` gives, object members in the
/// order the parsed map holds them). Nothing more is stated: the result is
/// the name `json_parse` of the text.
#[verifier::external_body]
pub(crate) fn parse_json(s: &str) -> (r: Option<JsonValue>)
    ensures
        r == json_parse(s@),
{
    serde_json::from_str::<serde_json::Value>(s).ok().map(|v| json_of_serde(&v))
}

/// The `JsonValue` of a parsed `serde_json::Value`, variant for variant:
/// the conversion step of `parse_json`, split out because it recurses.
#[verifier::external_body]
fn json_of_serde(v: &serde_json::Value) -> JsonValue {
    match v {
        serde_json::Value::Null => JsonValue::Null,
        serde_json::Value::Bool(b) => JsonValue::Bool(*b),
        serde_json::Value::Number(n) => JsonValue::Number(n.to_string()),
        serde_json::Value::String(t) => JsonValue::String(t.clone()),
        serde_json::Value::Array(a) => JsonValue::Array(a.iter().map(json_of_serde).collect()),
        serde_json::Value::Object(m) => JsonValue::Object(
            m.iter().map(|(k, x)| (k.clone(), json_of_serde(x))).collect(),
        ),
    }
}

} // verus!
