//! JSON documents, as the hook payload schema reads them.
//!
//! serde_json does the parsing. The document it produces is handed over as a
//! `Json` tree of this library's own, one node for one node, and everything
//! that decides what the document means is verified code over that tree.
//!
//! The whole document is parsed, read or not: a body holding a value that
//! serde_json will not build (a lone surrogate escape, a number out of
//! range) anywhere in it is not JSON here, and an object that repeats a key
//! keeps the last value given for it.

use vstd::prelude::*;

verus! {

/// A JSON value. Numbers are kept only as numbers: no field the library
/// reads is numeric, so their value is never looked at.
#[derive(Debug)]
pub enum Json {
    Null,
    Bool(bool),
    Number,
    Text(String),
    Array(Vec<Json>),
    Object(Vec<(String, Json)>),
}

#[verifier::external_type_specification]
#[verifier::external_body]
pub struct ExJsonValue(serde_json::Value);

#[verifier::external_type_specification]
#[verifier::external_body]
pub struct ExJsonError(serde_json::Error);

/// A name for the document serde_json reads from `body`, or `None` when the
/// bytes are not one JSON document.
pub uninterp spec fn parsed_json(body: Seq<u8>) -> Option<Json>;

/// `serde_json::from_slice::<serde_json::Value>`: parses `body` as one JSON
/// document. Claimed: it succeeds exactly when `parsed_json` names a
/// document, and the tree it gives is that document. The claim is only that
/// parsing is a function of the bytes; what serde_json accepts is not
/// restated here.
#[verifier::external_body]
fn parse_value(body: &[u8]) -> (r: Result<Json, serde_json::Error>)
    ensures
        r is Ok <==> parsed_json(body@) is Some,
        r matches Ok(j) ==> parsed_json(body@) == Some(j),
{
    match serde_json::from_slice::<serde_json::Value>(body) {
        Ok(value) => Ok(from_value(&value)),
        Err(error) => Err(error),
    }
}

/// Copies a `serde_json::Value` into a `Json` tree, node for node: each of
/// the six variants becomes its namesake, a number loses its value, strings,
/// array items and object entries are copied in the order serde_json keeps
/// them. Nothing is claimed of the result; `parse_value` states what the
/// copy is.
#[verifier::external_body]
fn from_value(value: &serde_json::Value) -> Json {
    match value {
        serde_json::Value::Null => Json::Null,
        serde_json::Value::Bool(b) => Json::Bool(*b),
        serde_json::Value::Number(_) => Json::Number,
        serde_json::Value::String(s) => Json::Text(s.clone()),
        serde_json::Value::Array(items) => Json::Array(items.iter().map(from_value).collect()),
        serde_json::Value::Object(map) => Json::Object(
            map.iter().map(|(k, v)| (k.clone(), from_value(v))).collect(),
        ),
    }
}

/// Parses `body` as one JSON document, or `None` when it is not one.
pub fn parse(body: &[u8]) -> (r: Option<Json>)
    ensures
        r == parsed_json(body@),
{
    match parse_value(body) {
        Ok(j) => Some(j),
        Err(_) => None,
    }
}

/// The value stored under `key` in an object's entries, if any.
pub open spec fn field_of(fields: Seq<(String, Json)>, key: Seq<char>) -> Option<Json>
    decreases fields.len(),
{
    if fields.len() == 0 {
        None
    } else if fields[0].0@ == key {
        Some(fields[0].1)
    } else {
        field_of(fields.drop_first(), key)
    }
}

pub open spec fn opt_ref(o: Option<&Json>) -> Option<Json> {
    match o {
        Some(j) => Some(*j),
        None => None,
    }
}

proof fn lemma_field_of_skip(fields: Seq<(String, Json)>, key: Seq<char>, i: int)
    requires
        0 <= i < fields.len(),
        fields[i].0@ != key,
    ensures
        field_of(fields.skip(i), key) == field_of(fields.skip(i + 1), key),
{
    let s = fields.skip(i);
    assert(s[0] == fields[i]);
    assert(s.drop_first() =~= fields.skip(i + 1));
}

/// The value stored under `key` in an object's entries, if any.
pub fn field<'a>(fields: &'a Vec<(String, Json)>, key: &str) -> (r: Option<&'a Json>)
    ensures
        opt_ref(r) == field_of(fields@, key@),
{
    let n = fields.len();
    let mut i: usize = 0;
    assert(fields@.skip(0) =~= fields@);
    while i < n
        invariant
            n == fields@.len(),
            i <= n,
            field_of(fields@, key@) == field_of(fields@.skip(i as int), key@),
        decreases n - i,
    {
        let entry = &fields[i];
        if entry.0.as_str().unicode_len() == key.unicode_len() && crate::text::same_text(
            entry.0.as_str(),
            key,
        ) {
            proof {
                assert(fields@.skip(i as int)[0] == fields@[i as int]);
            }
            return Some(&entry.1);
        }
        proof {
            lemma_field_of_skip(fields@, key@, i as int);
        }
        i = i + 1;
    }
    proof {
        assert(fields@.skip(n as int).len() == 0);
    }
    None
}

} // verus!
