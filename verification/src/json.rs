//! Loosely typed values, as they arrive inside a delivery, and the readers
//! that pull typed fields out of them.

use vstd::prelude::*;

verus! {

/// A loosely typed value. A number that is no 64-bit signed integer is kept as
/// `Number`, without its value.
#[derive(Debug)]
pub enum Json {
    Null,
    Bool(bool),
    Integer(i64),
    Number,
    Text(String),
    List(Vec<Json>),
    Object(Vec<Member>),
}

/// One named member of an object.
#[derive(Debug)]
pub struct Member {
    pub key: String,
    pub value: Json,
}

#[verifier::external_type_specification]
#[verifier::external_body]
pub struct ExJsonValue(serde_json::Value);

/// The value of the first member named `key`, if there is one.
pub open spec fn lookup(members: Seq<Member>, key: Seq<char>) -> Option<Json>
    decreases members.len(),
{
    if members.len() == 0 {
        None
    } else if members[0].key@ == key {
        Some(members[0].value)
    } else {
        lookup(members.drop_first(), key)
    }
}

/// The member `key` of an object; `None` for a value that is no object or has
/// no such member.
pub open spec fn field(v: Json, key: Seq<char>) -> Option<Json> {
    match v {
        Json::Object(members) => lookup(members@, key),
        _ => None,
    }
}

/// The member `key` of an object, where it is a text.
pub open spec fn text_field(v: Json, key: Seq<char>) -> Option<String> {
    match field(v, key) {
        Some(Json::Text(s)) => Some(s),
        _ => None,
    }
}

/// The member `key` of an object, where it is an integer.
pub open spec fn integer_field(v: Json, key: Seq<char>) -> Option<i64> {
    match field(v, key) {
        Some(Json::Integer(n)) => Some(n),
        _ => None,
    }
}

/// What a `serde_json::Value` holds, in the library's own shape: each
/// variant as the variant of the same kind, members and elements in the
/// order in which the value keeps them, a number as `Integer` where
/// `Number::as_i64` yields a value and as `Number` where it does not.
pub uninterp spec fn json_view(value: serde_json::Value) -> Json;

/// Converts a `serde_json::Value` variant by variant, members and elements in
/// the order in which the crate walks them. A number goes through
/// `Number::as_i64`: it becomes `Integer` where that yields a value and
/// `Number` where it does not.
#[verifier::external_body]
pub(crate) fn json_of(value: &serde_json::Value) -> (json: Json)
    ensures
        json == json_view(*value),
{
    match value {
        serde_json::Value::Null => Json::Null,
        serde_json::Value::Bool(b) => Json::Bool(*b),
        serde_json::Value::Number(n) => match n.as_i64() {
            Some(i) => Json::Integer(i),
            None => Json::Number,
        },
        serde_json::Value::String(s) => Json::Text(s.clone()),
        serde_json::Value::Array(a) => Json::List(a.iter().map(json_of).collect()),
        serde_json::Value::Object(o) => Json::Object(
            o.iter().map(|(k, v)| Member { key: k.clone(), value: json_of(v) }).collect(),
        ),
    }
}

/// The value of the first member named `key`.
fn find_member<'a>(members: &'a Vec<Member>, key: &str) -> (r: Option<&'a Json>)
    ensures
        match r {
            Some(v) => lookup(members@, key@) == Some(*v),
            None => lookup(members@, key@) is None,
        },
{
    let mut i: usize = 0;
    assert(members@.subrange(0, members@.len() as int) =~= members@);
    while i < members.len()
        invariant
            i <= members@.len(),
            lookup(members@, key@) == lookup(members@.subrange(i as int, members@.len() as int), key@),
        decreases members@.len() - i,
    {
        let ghost rest = members@.subrange(i as int, members@.len() as int);
        assert(rest[0] == members@[i as int]);
        assert(rest.drop_first() =~= members@.subrange(i + 1, members@.len() as int));
        if crate::text::same_text(members[i].key.as_str(), key) {
            return Some(&members[i].value);
        }
        i += 1;
    }
    None
}

impl Json {
    /// The member `key` of an object.
    pub fn get(&self, key: &str) -> (r: Option<&Json>)
        ensures
            match r {
                Some(v) => field(*self, key@) == Some(*v),
                None => field(*self, key@) is None,
            },
    {
        match self {
            Json::Object(members) => find_member(members, key),
            _ => None,
        }
    }

    /// The member `key` of an object, where it is a text.
    pub fn get_text(&self, key: &str) -> (r: Option<&String>)
        ensures
            match r {
                Some(s) => text_field(*self, key@) == Some(*s),
                None => text_field(*self, key@) is None,
            },
    {
        match self.get(key) {
            Some(Json::Text(s)) => Some(s),
            _ => None,
        }
    }

    /// The member `key` of an object, where it is an integer.
    pub fn get_integer(&self, key: &str) -> (r: Option<i64>)
        ensures
            r == integer_field(*self, key@),
    {
        match self.get(key) {
            Some(Json::Integer(n)) => Some(*n),
            _ => None,
        }
    }
}

} // verus!
