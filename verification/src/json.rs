//! A plain JSON value tree, and the trusted bridge that obtains one from
//! a response body.  The schema mapping from this tree to the typed
//! response model is verified; only the text-to-tree step is delegated.
//!
//! Numbers are carried in their decimal string rendering, so the tree
//! holds nothing but plain values.

use vstd::prelude::*;

verus! {

use crate::text::str_eq;

/// A JSON value: the input of the verified response decoder.
#[derive(Debug)]
pub enum JsonValue {
    Null,
    Bool(bool),
    /// A number, in its decimal string rendering.
    Num(String),
    Str(String),
    Arr(Vec<JsonValue>),
    /// An object: its bindings in order.  A key's first binding is the
    /// one that counts.
    Obj(Vec<(String, JsonValue)>),
}

#[verifier::external_type_specification]
#[verifier::external_body]
pub struct ExSerdeValue(serde_json::Value);

/// Relies on `serde_json::Value`: maps each variant of the parsed tree to
/// the corresponding [`JsonValue`] variant, numbers rendered through
/// `serde_json::Number`'s display form.
#[verifier::external_body]
fn from_serde_value(v: serde_json::Value) -> JsonValue {
    match v {
        serde_json::Value::Null => JsonValue::Null,
        serde_json::Value::Bool(b) => JsonValue::Bool(b),
        serde_json::Value::Number(n) => JsonValue::Num(n.to_string()),
        serde_json::Value::String(s) => JsonValue::Str(s),
        serde_json::Value::Array(a) => JsonValue::Arr(
            a.into_iter().map(from_serde_value).collect(),
        ),
        serde_json::Value::Object(o) => JsonValue::Obj(
            o.into_iter().map(|p| (p.0, from_serde_value(p.1))).collect(),
        ),
    }
}

/// What parsing a body yields: the JSON value tree of a well-formed JSON
/// text, nothing for a malformed one.  The result depends on the bytes
/// alone.
pub uninterp spec fn parsed_json(body: Seq<u8>) -> Option<JsonValue>;

/// Relies on `serde_json::from_slice`: parses a JSON text into its value
/// tree, or fails on malformed input with the parser's description of
/// the fault; whether and what tree comes back depends on the bytes
/// alone.
#[verifier::external_body]
pub(crate) fn parse_json(body: &[u8]) -> (r: Result<JsonValue, String>)
    ensures
        r matches Ok(v) ==> parsed_json(body@) == Some(v),
        r is Err ==> parsed_json(body@) is None,
{
    match serde_json::from_slice::<serde_json::Value>(body) {
        Ok(v) => Ok(from_serde_value(v)),
        Err(e) => Err(e.to_string()),
    }
}

/// The value bound to a key in an object's bindings: the first binding
/// wins.
pub open spec fn lookup(fields: Seq<(String, JsonValue)>, key: Seq<char>) -> Option<JsonValue>
    decreases fields.len(),
{
    if fields.len() == 0 {
        None
    } else if fields[0].0@ == key {
        Some(fields[0].1)
    } else {
        lookup(fields.drop_first(), key)
    }
}

/// Finds the first binding of `key` in an object's bindings.
pub fn obj_get<'a>(fields: &'a Vec<(String, JsonValue)>, key: &str) -> (r: Option<&'a JsonValue>)
    ensures
        match r {
            Some(v) => lookup(fields@, key@) == Some(*v),
            None => lookup(fields@, key@) is None,
        },
{
    let n = fields.len();
    let mut i: usize = 0;
    proof {
        assert(fields@.subrange(0, n as int) =~= fields@);
    }
    while i < n
        invariant
            0 <= i <= n,
            n == fields@.len(),
            lookup(fields@, key@) == lookup(fields@.subrange(i as int, n as int), key@),
        decreases n - i,
    {
        let hit = str_eq(fields[i].0.as_str(), key);
        proof {
            let rest = fields@.subrange(i as int, n as int);
            assert(rest[0] == fields@[i as int]);
            assert(rest.drop_first() =~= fields@.subrange(i as int + 1, n as int));
        }
        if hit {
            return Some(&fields[i].1);
        }
        i = i + 1;
    }
    proof {
        assert(fields@.subrange(n as int, n as int) =~= Seq::<(String, JsonValue)>::empty());
    }
    None
}

} // verus!
