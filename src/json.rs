//! A plain model of JSON values, as the validation service sends them.

use vstd::prelude::*;

verus! {

/// A JSON value. Numbers keep their textual form; an object keeps its
/// members in order.
#[derive(Debug, PartialEq)]
pub enum Json {
    Null,
    Bool(bool),
    Number(String),
    Str(String),
    Array(Vec<Json>),
    Object(Vec<(String, Json)>),
}

/// The value of the first member of `fields`, from position `i` on, whose
/// name is `key`.
pub open spec fn lookup_from(fields: Seq<(String, Json)>, key: Seq<char>, i: int) -> Option<Json>
    decreases fields.len() - i,
{
    if i < 0 || i >= fields.len() {
        None
    } else if fields[i].0@ == key {
        Some(fields[i].1)
    } else {
        lookup_from(fields, key, i + 1)
    }
}

/// The value of the member named `key`, if the object has one.
pub open spec fn lookup(fields: Seq<(String, Json)>, key: Seq<char>) -> Option<Json> {
    lookup_from(fields, key, 0)
}

/// The member under `primary`, or else the one under `fallback`.
pub open spec fn pick(fields: Seq<(String, Json)>, primary: Seq<char>, fallback: Seq<char>) -> Option<Json> {
    match lookup(fields, primary) {
        Some(v) => Some(v),
        None => lookup(fields, fallback),
    }
}

/// The text of a string value, or `default` for anything else.
pub open spec fn text_or(v: Option<Json>, default: Seq<char>) -> Seq<char> {
    match v {
        Some(Json::Str(s)) => s@,
        _ => default,
    }
}

/// The truth value of a boolean value, or `false` for anything else.
pub open spec fn flag_or_false(v: Option<Json>) -> bool {
    match v {
        Some(Json::Bool(b)) => b,
        _ => false,
    }
}

/// The member of `fields` named `key`.
pub fn get<'a>(fields: &'a Vec<(String, Json)>, key: &String) -> (r: Option<&'a Json>)
    ensures
        match r {
            Some(v) => lookup(fields@, key@) == Some(*v),
            None => lookup(fields@, key@) is None,
        },
{
    let mut i: usize = 0;
    while i < fields.len()
        invariant
            0 <= i <= fields.len(),
            lookup(fields@, key@) == lookup_from(fields@, key@, i as int),
        decreases fields.len() - i,
    {
        if fields[i].0 == *key {
            return Some(&fields[i].1);
        }
        i = i + 1;
    }
    None
}

/// The member under `primary`, or else the one under `fallback`.
pub fn get_either<'a>(fields: &'a Vec<(String, Json)>, primary: &str, fallback: &str) -> (r: Option<&'a Json>)
    ensures
        match r {
            Some(v) => pick(fields@, primary@, fallback@) == Some(*v),
            None => pick(fields@, primary@, fallback@) is None,
        },
{
    let p = String::from_str(primary);
    match get(fields, &p) {
        Some(v) => Some(v),
        None => {
            let f = String::from_str(fallback);
            get(fields, &f)
        },
    }
}

/// The text of a string value, or `default` for anything else.
pub fn text_of(v: Option<&Json>, default: &str) -> (r: String)
    ensures
        r@ == text_or(
            match v {
                Some(j) => Some(*j),
                None => None,
            },
            default@,
        ),
{
    match v {
        Some(Json::Str(s)) => s.clone(),
        _ => String::from_str(default),
    }
}

/// The truth value of a boolean value, or `false` for anything else.
pub fn flag_of(v: Option<&Json>) -> (r: bool)
    ensures
        r == flag_or_false(
            match v {
                Some(j) => Some(*j),
                None => None,
            },
        ),
{
    match v {
        Some(Json::Bool(b)) => *b,
        _ => false,
    }
}

} // verus!
