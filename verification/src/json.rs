//! JSON documents: the library's model of one, the questions the library
//! asks of it, and the parse that `serde_json` does.

use vstd::prelude::*;

use crate::text::str_eq;

verus! {

/// A JSON value (`serde_json::Value`), carried opaquely.
#[verifier::external_type_specification]
#[verifier::external_body]
pub struct ExJsonValue(serde_json::Value);

/// What `serde_json::from_slice::<serde_json::Value>` reads from a byte
/// string, in the library's model: the document, or the text of its error.
/// A document parses when it is one complete JSON value in valid UTF-8, with
/// nothing but whitespace after it; its objects come out with their keys in
/// order and once each, a later duplicate replacing an earlier one.
pub uninterp spec fn json_parse(bytes: Seq<u8>) -> Result<JsonValue, Seq<char>>;

/// Why a byte string is no JSON document (the text of the parse error), or
/// `None` when it is one.
pub open spec fn json_parse_failure(bytes: Seq<u8>) -> Option<Seq<char>> {
    match json_parse(bytes) {
        Ok(_) => None,
        Err(m) => Some(m),
    }
}

/// Moves a parsed `serde_json::Value` into the library's model, variant by
/// variant: a number as its decimal text, an object's members in the map's
/// order.
#[verifier::external_body]
fn json_model(value: &serde_json::Value) -> JsonValue {
    match value {
        serde_json::Value::Null => JsonValue::Null,
        serde_json::Value::Bool(flag) => JsonValue::Bool(*flag),
        serde_json::Value::Number(number) => JsonValue::Number(number.to_string()),
        serde_json::Value::String(text) => JsonValue::Text(text.clone()),
        serde_json::Value::Array(items) => JsonValue::Array(items.iter().map(json_model).collect()),
        serde_json::Value::Object(members) => JsonValue::Object(
            members.iter().map(|(key, member)| (key.clone(), json_model(member))).collect(),
        ),
    }
}

/// Parses one JSON document (`serde_json::from_slice::<serde_json::Value>`)
/// into the library's model, giving the error's text on failure.
#[verifier::external_body]
pub(crate) fn parse_json(bytes: &[u8]) -> (r: Result<JsonValue, String>)
    ensures
        match json_parse(bytes@) {
            Ok(d) => r == Ok::<JsonValue, String>(d),
            Err(m) => r matches Err(e) && e@ == m,
        },
{
    serde_json::from_slice::<serde_json::Value>(bytes).map(|value| json_model(&value)).map_err(
        |error| error.to_string(),
    )
}

/// A JSON document held as plain values: a number as its decimal text, an
/// object as its members in order.
#[derive(Debug, PartialEq)]
pub enum JsonValue {
    Null,
    Bool(bool),
    Number(String),
    Text(String),
    Array(Vec<JsonValue>),
    Object(Vec<(String, JsonValue)>),
}

/// The index of the last member named `key`: a later duplicate replaces an
/// earlier one, as a JSON map keeps it.
pub open spec fn last_member_index(members: Seq<(String, JsonValue)>, key: Seq<char>) -> Option<int>
    decreases members.len(),
{
    if members.len() == 0 {
        None
    } else if members.last().0@ == key {
        Some(members.len() - 1)
    } else {
        last_member_index(members.drop_last(), key)
    }
}

proof fn lemma_last_member_index(members: Seq<(String, JsonValue)>, key: Seq<char>)
    ensures
        match last_member_index(members, key) {
            Some(i) => 0 <= i < members.len() && members[i].0@ == key && forall|j: int|
                i < j < members.len() ==> (#[trigger] members[j]).0@ != key,
            None => forall|j: int| 0 <= j < members.len() ==> (#[trigger] members[j]).0@ != key,
        },
    decreases members.len(),
{
    if members.len() > 0 {
        lemma_last_member_index(members.drop_last(), key);
        if members.last().0@ != key {
            assert forall|j: int| 0 <= j < members.len() - 1 implies #[trigger] members[j]
                == members.drop_last()[j] by {}
        }
    }
}

impl JsonValue {
    /// The member `key` of an object; `None` for a missing key or a value
    /// that is no object.
    pub open spec fn spec_member(self, key: Seq<char>) -> Option<JsonValue> {
        match self {
            JsonValue::Object(members) => match last_member_index(members@, key) {
                Some(i) => Some(members@[i].1),
                None => None,
            },
            _ => None,
        }
    }

    /// The text of a JSON string; `None` for any other value.
    pub open spec fn spec_text(self) -> Option<Seq<char>> {
        match self {
            JsonValue::Text(s) => Some(s@),
            _ => None,
        }
    }

    /// The text of the member `key`, when it is a string.
    pub open spec fn member_text(self, key: Seq<char>) -> Option<Seq<char>> {
        match self.spec_member(key) {
            Some(v) => v.spec_text(),
            None => None,
        }
    }

    /// Whether the value is an object.
    pub open spec fn spec_is_object(self) -> bool {
        self is Object
    }

    /// The member `key` of an object.
    pub fn member(&self, key: &str) -> (r: Option<&JsonValue>)
        ensures
            match r {
                Some(v) => self.spec_member(key@) == Some(*v),
                None => self.spec_member(key@) is None,
            },
    {
        match self {
            JsonValue::Object(members) => {
                proof {
                    lemma_last_member_index(members@, key@);
                }
                let mut i: usize = members.len();
                while i > 0
                    invariant
                        *self == JsonValue::Object(*members),
                        i <= members@.len(),
                        forall|j: int| i <= j < members@.len() ==> (#[trigger] members@[j]).0@ != key@,
                        match last_member_index(members@, key@) {
                            Some(k) => 0 <= k < members@.len() && members@[k].0@ == key@ && forall|j: int|
                                k < j < members@.len() ==> (#[trigger] members@[j]).0@ != key@,
                            None => forall|j: int|
                                0 <= j < members@.len() ==> (#[trigger] members@[j]).0@ != key@,
                        },
                    decreases i,
                {
                    i -= 1;
                    if str_eq(members[i].0.as_str(), key) {
                        proof {
                            match last_member_index(members@, key@) {
                                Some(k) => {
                                    if k < i {
                                        assert(members@[i as int].0@ != key@);
                                    }
                                },
                                None => {
                                    assert(members@[i as int].0@ != key@);
                                },
                            }
                        }
                        return Some(&members[i].1);
                    }
                }
                None
            },
            _ => None,
        }
    }

    /// The member `key` of an object, taken out of it.
    pub fn into_member(self, key: &str) -> (r: Option<JsonValue>)
        ensures
            r == self.spec_member(key@),
    {
        let ghost whole = self;
        match self {
            JsonValue::Object(mut members) => {
                proof {
                    lemma_last_member_index(members@, key@);
                }
                let mut i: usize = members.len();
                while i > 0
                    invariant
                        whole == self,
                        whole == JsonValue::Object(members),
                        i <= members@.len(),
                        forall|j: int| i <= j < members@.len() ==> (#[trigger] members@[j]).0@ != key@,
                        match last_member_index(members@, key@) {
                            Some(k) => 0 <= k < members@.len() && members@[k].0@ == key@ && forall|j: int|
                                k < j < members@.len() ==> (#[trigger] members@[j]).0@ != key@,
                            None => forall|j: int|
                                0 <= j < members@.len() ==> (#[trigger] members@[j]).0@ != key@,
                        },
                    decreases i,
                {
                    i -= 1;
                    if str_eq(members[i].0.as_str(), key) {
                        proof {
                            match last_member_index(members@, key@) {
                                Some(k) => {
                                    if k < i {
                                        assert(members@[i as int].0@ != key@);
                                    }
                                },
                                None => {
                                    assert(members@[i as int].0@ != key@);
                                },
                            }
                        }
                        assert(last_member_index(members@, key@) == Some(i as int));
                        assert(whole.spec_member(key@) == Some(members@[i as int].1));
                        let taken = members.remove(i);
                        return Some(taken.1);
                    }
                }
                None
            },
            _ => None,
        }
    }

    /// The text of a JSON string.
    pub fn as_text(&self) -> (r: Option<&str>)
        ensures
            match r {
                Some(s) => self.spec_text() == Some(s@),
                None => self.spec_text() is None,
            },
    {
        match self {
            JsonValue::Text(s) => Some(s.as_str()),
            _ => None,
        }
    }

    /// Whether the value is an object.
    pub fn is_object(&self) -> (r: bool)
        ensures
            r == self.spec_is_object(),
    {
        match self {
            JsonValue::Object(_) => true,
            _ => false,
        }
    }
}


/// Two documents with the same shape and the same text everywhere: what a
/// deep copy keeps.
pub open spec fn same_json(a: JsonValue, b: JsonValue) -> bool
    decreases a,
{
    match a {
        JsonValue::Null => b is Null,
        JsonValue::Bool(x) => b == JsonValue::Bool(x),
        JsonValue::Number(t) => b matches JsonValue::Number(u) && u@ == t@,
        JsonValue::Text(t) => b matches JsonValue::Text(u) && u@ == t@,
        JsonValue::Array(items) => b matches JsonValue::Array(out) && out@.len() == items@.len()
            && forall|i: int| 0 <= i < items@.len() ==> same_json(items@[i], #[trigger] out@[i]),
        JsonValue::Object(members) => b matches JsonValue::Object(out) && out@.len()
            == members@.len() && forall|i: int|
            0 <= i < members@.len() ==> (#[trigger] out@[i]).0@ == members@[i].0@ && same_json(
                members@[i].1,
                out@[i].1,
            ),
    }
}

impl Clone for JsonValue {
    /// A deep copy.
    fn clone(&self) -> (r: Self)
        ensures
            same_json(*self, r),
        decreases self,
    {
        match self {
            JsonValue::Null => JsonValue::Null,
            JsonValue::Bool(flag) => JsonValue::Bool(*flag),
            JsonValue::Number(text) => JsonValue::Number(text.clone()),
            JsonValue::Text(text) => JsonValue::Text(text.clone()),
            JsonValue::Array(items) => {
                let mut out: Vec<JsonValue> = Vec::new();
                let n = items.len();
                let mut i: usize = 0;
                while i < n
                    invariant
                        *self == JsonValue::Array(*items),
                        n == items@.len(),
                        i <= n,
                        out@.len() == i,
                        forall|j: int| 0 <= j < i ==> same_json(items@[j], #[trigger] out@[j]),
                    decreases n - i,
                {
                    proof {
                        vstd::std_specs::vec::axiom_vec_index_decreases(*items, i as int);
                        assert(decreases_to!(*self => (*self)->Array_0));
                        assert(decreases_to!(*self => items[i as int]));
                    }
                    out.push(items[i].clone());
                    i += 1;
                }
                JsonValue::Array(out)
            },
            JsonValue::Object(members) => {
                let mut out: Vec<(String, JsonValue)> = Vec::new();
                let n = members.len();
                let mut i: usize = 0;
                while i < n
                    invariant
                        *self == JsonValue::Object(*members),
                        n == members@.len(),
                        i <= n,
                        out@.len() == i,
                        forall|j: int|
                            0 <= j < i ==> (#[trigger] out@[j]).0@ == members@[j].0@ && same_json(
                                members@[j].1,
                                out@[j].1,
                            ),
                    decreases n - i,
                {
                    proof {
                        vstd::std_specs::vec::axiom_vec_index_decreases(*members, i as int);
                        assert(decreases_to!(*self => (*self)->Object_0));
                        assert(decreases_to!(members[i as int] => members[i as int].1));
                        assert(decreases_to!(*self => members[i as int].1));
                    }
                    out.push((members[i].0.clone(), members[i].1.clone()));
                    i += 1;
                }
                JsonValue::Object(out)
            },
        }
    }
}

} // verus!

