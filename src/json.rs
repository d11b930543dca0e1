use vstd::prelude::*;
use serde_json::Value;

verus! {

#[verifier::external_type_specification]
#[verifier::external_body]
pub struct ExValue(serde_json::Value);

/// A JSON value. Numbers keep their text; an object keeps its members in
/// the order of serde_json's map, each key once.
pub enum Json {
    Null,
    Bool(bool),
    Number(String),
    Text(String),
    Array(Vec<Json>),
    Object(Vec<(String, Json)>),
}

/// The document that serde_json reads from `text`, or `None` where `text`
/// is not JSON.
pub uninterp spec fn json_of(text: Seq<char>) -> Option<Json>;

/// Relies on `serde_json::from_str` to parse a JSON document; its value is
/// carried over into `Json`.
#[verifier::external_body]
pub(crate) fn parse_json(text: &str) -> (r: Option<Json>)
    ensures
        r == json_of(text@),
{
    serde_json::from_str::<Value>(text).ok().map(json_from_value)
}

/// Relies on the variants of `serde_json::Value`: each becomes the same
/// variant of `Json`, member for member.
#[verifier::external_body]
fn json_from_value(v: Value) -> Json {
    match v {
        Value::Null => Json::Null,
        Value::Bool(b) => Json::Bool(b),
        Value::Number(n) => Json::Number(n.to_string()),
        Value::String(s) => Json::Text(s),
        Value::Array(a) => Json::Array(a.into_iter().map(json_from_value).collect()),
        Value::Object(m) => Json::Object(m.into_iter().map(|(k, x)| (k, json_from_value(x))).collect()),
    }
}

/// The value of the first member named `key` among `fields`.
pub open spec fn field_in(fields: Seq<(String, Json)>, key: Seq<char>) -> Option<Json>
    decreases fields.len(),
{
    if fields.len() == 0 {
        None
    } else if fields[0].0@ == key {
        Some(fields[0].1)
    } else {
        field_in(fields.drop_first(), key)
    }
}

/// The member `key` of `v`, where `v` is an object that has one.
pub open spec fn get(v: Option<Json>, key: Seq<char>) -> Option<Json> {
    match v {
        Some(Json::Object(fields)) => field_in(fields@, key),
        _ => None,
    }
}

/// The text of `v`, where `v` is a string.
pub open spec fn text(v: Option<Json>) -> Option<Seq<char>> {
    match v {
        Some(Json::Text(s)) => Some(s@),
        _ => None,
    }
}

/// The elements of the `items` member of `d`, where it is an array.
pub open spec fn items_of(d: Json) -> Option<Seq<Json>> {
    match get(Some(d), "items"@) {
        Some(Json::Array(a)) => Some(a@),
        _ => None,
    }
}

/// The elements of the `items` array of the document `body`, where `body` is
/// JSON and has one.
pub open spec fn items_in(body: Seq<char>) -> Option<Seq<Json>> {
    match json_of(body) {
        Some(d) => items_of(d),
        None => None,
    }
}

pub open spec fn opt(v: Option<&Json>) -> Option<Json> {
    match v {
        Some(x) => Some(*x),
        None => None,
    }
}

pub open spec fn opt_text(v: Option<&str>) -> Option<Seq<char>> {
    match v {
        Some(s) => Some(s@),
        None => None,
    }
}

/// The member `key` of `v`, where `v` is an object that has one.
pub fn member<'a>(v: Option<&'a Json>, key: &str) -> (r: Option<&'a Json>)
    ensures
        opt(r) == get(opt(v), key@),
{
    let fields = match v {
        Some(Json::Object(fields)) => fields,
        _ => return None,
    };
    let k = key.to_owned();
    let mut i: usize = 0;
    assert(fields@.subrange(0, fields@.len() as int) =~= fields@);
    while i < fields.len()
        invariant
            i <= fields@.len(),
            k@ == key@,
            opt(v) == Some(Json::Object(*fields)),
            field_in(fields@, key@) == field_in(fields@.subrange(i as int, fields@.len() as int), key@),
        decreases fields@.len() - i,
    {
        assert(fields@.subrange(i as int, fields@.len() as int).drop_first() =~= fields@.subrange(
            i + 1,
            fields@.len() as int,
        ));
        if fields[i].0 == k {
            return Some(&fields[i].1);
        }
        i = i + 1;
    }
    None
}

/// The text of `v`, where `v` is a string.
pub fn text_value<'a>(v: Option<&'a Json>) -> (r: Option<&'a str>)
    ensures
        opt_text(r) == text(opt(v)),
{
    match v {
        Some(Json::Text(s)) => Some(s.as_str()),
        _ => None,
    }
}

/// The elements of the `items` member of `d`, where it is an array.
pub fn items<'a>(d: &'a Json) -> (r: Option<&'a Vec<Json>>)
    ensures
        match r {
            Some(a) => items_of(*d) == Some(a@),
            None => items_of(*d) is None,
        },
{
    match member(Some(d), "items") {
        Some(Json::Array(a)) => Some(a),
        _ => None,
    }
}

} // verus!
