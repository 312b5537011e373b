use crate::name_map::{first_index_of, has_name, lemma_first_index_of};
use crate::text::same_text;
use vstd::prelude::*;
use vstd::std_specs::vec::axiom_vec_index_decreases;

verus! {

/// A JSON document held as plain data.
///
/// Objects keep their members in insertion order. Numbers are integers.
#[derive(Debug, PartialEq, Eq)]
pub enum JsonValue {
    Null,
    Bool(bool),
    Number(i64),
    String(String),
    Array(Vec<JsonValue>),
    Object(Vec<JsonMember>),
}

/// One member of a JSON object.
#[derive(Debug, PartialEq, Eq)]
pub struct JsonMember {
    pub name: String,
    pub value: JsonValue,
}

/// The members of an object as pairs of name and value.
pub open spec fn member_pairs(members: Seq<JsonMember>) -> Seq<(String, JsonValue)> {
    members.map_values(|m: JsonMember| (m.name, m.value))
}

/// Whether two values hold the same JSON: the same scalar, or arrays of the
/// same items in the same order, or objects of the same members in the same
/// order.
pub open spec fn same_json(a: JsonValue, b: JsonValue) -> bool
    decreases a,
{
    match a {
        JsonValue::Array(items) => {
            &&& b is Array
            &&& b->Array_0@.len() == items@.len()
            &&& forall|i: int|
                0 <= i < items@.len() ==> same_json(#[trigger] items@[i], b->Array_0@[i])
        },
        JsonValue::Object(members) => {
            &&& b is Object
            &&& b->Object_0@.len() == members@.len()
            &&& forall|i: int|
                0 <= i < members@.len() ==> (#[trigger] members@[i]).name@ == b->Object_0@[i].name@
                    && same_json(members@[i].value, b->Object_0@[i].value)
        },
        JsonValue::String(text) => b is String && b->String_0@ == text@,
        _ => a == b,
    }
}

impl Clone for JsonValue {
    /// A deep copy: a value that holds the same JSON.
    fn clone(&self) -> (copy: Self)
        ensures
            same_json(*self, copy),
        decreases self,
    {
        match self {
            JsonValue::Null => JsonValue::Null,
            JsonValue::Bool(b) => JsonValue::Bool(*b),
            JsonValue::Number(n) => JsonValue::Number(*n),
            JsonValue::String(s) => JsonValue::String(s.clone()),
            JsonValue::Array(items) => {
                let mut out: Vec<JsonValue> = Vec::new();
                let mut i: usize = 0;
                while i < items.len()
                    invariant
                        i <= items@.len(),
                        out@.len() == i,
                        *self is Array,
                        self->Array_0 == *items,
                        forall|j: int| 0 <= j < i ==> same_json(#[trigger] items@[j], out@[j]),
                    decreases items@.len() - i,
                {
                    proof {
                        axiom_vec_index_decreases(*items, i as int);
                    }
                    let item = items[i].clone();
                    out.push(item);
                    i = i + 1;
                }
                JsonValue::Array(out)
            },
            JsonValue::Object(members) => {
                let mut out: Vec<JsonMember> = Vec::new();
                let mut i: usize = 0;
                while i < members.len()
                    invariant
                        i <= members@.len(),
                        out@.len() == i,
                        *self is Object,
                        self->Object_0 == *members,
                        forall|j: int|
                            0 <= j < i ==> (#[trigger] members@[j]).name@ == out@[j].name@
                                && same_json(members@[j].value, out@[j].value),
                    decreases members@.len() - i,
                {
                    proof {
                        axiom_vec_index_decreases(*members, i as int);
                    }
                    let value = members[i].value.clone();
                    out.push(JsonMember { name: members[i].name.clone(), value });
                    i = i + 1;
                }
                JsonValue::Object(out)
            },
        }
    }
}

impl Clone for JsonMember {
    /// A copy under the same name that holds the same JSON.
    fn clone(&self) -> (copy: Self)
        ensures
            copy.name@ == self.name@,
            same_json(self.value, copy.value),
    {
        JsonMember { name: self.name.clone(), value: self.value.clone() }
    }
}

impl JsonValue {
    /// Whether the value is an object with a member named `key`.
    pub open spec fn has_member(self, key: Seq<char>) -> bool {
        match self {
            JsonValue::Object(members) => has_name(member_pairs(members@), key),
            _ => false,
        }
    }

    /// The member named `key` of an object; meaningful only where
    /// `self.has_member(key)`.
    pub open spec fn member(self, key: Seq<char>) -> JsonValue {
        match self {
            JsonValue::Object(members) => members@[first_index_of(member_pairs(members@), key)].value,
            _ => JsonValue::Null,
        }
    }

    /// An object without members.
    pub fn empty_object() -> (value: Self)
        ensures
            value is Object,
            value->Object_0@.len() == 0,
    {
        JsonValue::Object(Vec::new())
    }

    /// Whether the value is `null`.
    pub fn is_null(&self) -> (null: bool)
        ensures
            null == (*self == JsonValue::Null),
    {
        match self {
            JsonValue::Null => true,
            _ => false,
        }
    }

    /// Whether the value is an object.
    pub fn is_object(&self) -> (object: bool)
        ensures
            object == (*self is Object),
    {
        match self {
            JsonValue::Object(_) => true,
            _ => false,
        }
    }

    /// The member named `key`, where the value is an object that has one.
    pub fn get(&self, key: &str) -> (found: Option<&JsonValue>)
        ensures
            found.is_some() <==> self.has_member(key@),
            found.is_some() ==> *found.unwrap() == self.member(key@),
    {
        match self {
            JsonValue::Object(members) => {
                let ghost pairs = member_pairs(members@);
                let mut i: usize = 0;
                while i < members.len()
                    invariant
                        i <= members@.len(),
                        pairs == member_pairs(members@),
                        *self is Object,
                        self->Object_0 == *members,
                        forall|j: int| 0 <= j < i ==> (#[trigger] pairs[j]).0@ != key@,
                    decreases members@.len() - i,
                {
                    if same_text(members[i].name.as_str(), key) {
                        proof {
                            assert(pairs[i as int].0@ == key@);
                            lemma_first_index_of(pairs, key@);
                        }
                        return Some(&members[i].value);
                    }
                    i = i + 1;
                }
                proof {
                    lemma_first_index_of(pairs, key@);
                }
                None
            },
            _ => None,
        }
    }

    /// The text of a string value.
    pub fn as_str(&self) -> (text: Option<&str>)
        ensures
            text.is_some() <==> *self is String,
            text.is_some() ==> text.unwrap()@ == self->String_0@,
    {
        match self {
            JsonValue::String(s) => Some(s.as_str()),
            _ => None,
        }
    }

    /// The integer of a number value.
    pub fn as_i64(&self) -> (number: Option<i64>)
        ensures
            number == (match *self {
                JsonValue::Number(n) => Some(n),
                _ => None,
            }),
    {
        match self {
            JsonValue::Number(n) => Some(*n),
            _ => None,
        }
    }

    /// The truth value of a boolean value.
    pub fn as_bool(&self) -> (truth: Option<bool>)
        ensures
            truth == (match *self {
                JsonValue::Bool(b) => Some(b),
                _ => None,
            }),
    {
        match self {
            JsonValue::Bool(b) => Some(*b),
            _ => None,
        }
    }
}

} // verus!
