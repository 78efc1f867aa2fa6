use vstd::prelude::*;

use crate::api_result::{keys_unique, lookup};
use crate::text::same_text;

verus! {

/// A parsed JSON document, node for node.
#[derive(Debug)]
pub enum JsonValue {
    Null,
    Bool(bool),
    /// A number that is a non-negative integer within `u64`.
    UInt(u64),
    /// Any other number: negative, fractional or too large.
    OtherNumber,
    Str(String),
    Array(Vec<JsonValue>),
    /// The members of an object, as name/value pairs.
    Object(Vec<(String, JsonValue)>),
}

/// The members of an object, keyed by the text of their names.
pub open spec fn member_table(members: Seq<(String, JsonValue)>) -> Seq<(Seq<char>, JsonValue)> {
    members.map_values(|m: (String, JsonValue)| (m.0@, m.1))
}

/// No object in the document has two members with the same name.
pub open spec fn names_unique(j: JsonValue) -> bool
    decreases j,
{
    match j {
        JsonValue::Array(items) => forall|i: int|
            0 <= i < items@.len() ==> names_unique(#[trigger] items@[i]),
        JsonValue::Object(ms) => keys_unique(member_table(ms@)) && forall|i: int|
            0 <= i < ms@.len() ==> names_unique(#[trigger] ms@[i].1),
        _ => true,
    }
}

/// The value of the member named `key`, if the object has one.
pub open spec fn member(members: Seq<(String, JsonValue)>, key: Seq<char>) -> Option<JsonValue> {
    lookup(member_table(members), key)
}

/// The value of the member named `key`, if the object has one.
pub fn get_member<'a>(members: &'a Vec<(String, JsonValue)>, key: &str) -> (r: Option<&'a JsonValue>)
    ensures
        match r {
            Some(v) => member(members@, key@) == Some(*v),
            None => member(members@, key@) is None,
        },
{
    let ghost table = member_table(members@);
    let n = members.len();
    let mut i: usize = 0;
    assert(table.subrange(0, n as int) =~= table);
    while i < n
        invariant
            n == members@.len(),
            n == table.len(),
            table == member_table(members@),
            i <= n,
            lookup(table, key@) == lookup(table.subrange(i as int, n as int), key@),
        decreases n - i,
    {
        let entry = &members[i];
        assert(table.subrange(i as int, n as int).drop_first() =~= table.subrange(i + 1, n as int));
        if same_text(entry.0.as_str(), key) {
            assert(table.subrange(i as int, n as int)[0] == (entry.0@, entry.1));
            return Some(&entry.1);
        }
        i = i + 1;
    }
    None
}

/// What `serde_json` reads from a text, as a `JsonValue`: none where the text
/// is not a JSON document.
pub uninterp spec fn json_document_of(text: Seq<char>) -> Option<JsonValue>;

/// Relies on `serde_json::from_str::<serde_json::Value>`: the text is read as one
/// JSON document, or refused with a description of what is wrong with it. Its
/// objects are `serde_json::Map`s, so no two members of one object share a name.
#[verifier::external_body]
pub fn parse_json(text: &str) -> (r: Result<JsonValue, String>)
    ensures
        match r {
            Ok(j) => json_document_of(text@) == Some(j) && names_unique(j),
            Err(_) => json_document_of(text@) is None,
        },
{
    match serde_json::from_str::<serde_json::Value>(text) {
        Ok(v) => Ok(json_from_serde(v)),
        Err(e) => Err(e.to_string()),
    }
}

/// The JSON tree of `serde_json`; opaque here, only moved into a `JsonValue`.
#[verifier::external_type_specification]
#[verifier::external_body]
pub struct ExJsonValue(serde_json::Value);

/// Moves a `serde_json::Value` into a `JsonValue`, one node for one node;
/// `serde_json::Number::as_u64` tells the two kinds of number apart.
#[verifier::external_body]
fn json_from_serde(v: serde_json::Value) -> JsonValue {
    match v {
        serde_json::Value::Null => JsonValue::Null,
        serde_json::Value::Bool(b) => JsonValue::Bool(b),
        serde_json::Value::Number(n) => match n.as_u64() {
            Some(u) => JsonValue::UInt(u),
            None => JsonValue::OtherNumber,
        },
        serde_json::Value::String(s) => JsonValue::Str(s),
        serde_json::Value::Array(a) => JsonValue::Array(a.into_iter().map(json_from_serde).collect()),
        serde_json::Value::Object(m) => JsonValue::Object(
            m.into_iter().map(|(k, x)| (k, json_from_serde(x))).collect(),
        ),
    }
}

} // verus!
