//! JSON documents, as far as this crate reads and writes them.

use serde_json::Number;
use serde_json::Value;
use vstd::prelude::*;

verus! {

#[verifier::external_type_specification]
#[verifier::external_body]
pub struct ExValue(Value);

/// A node of a JSON document. A number is held where it is an integer of at
/// least zero that fits 64 bits; any other number is `OtherNumber`.
pub enum JsonNode {
    Null,
    Bool(bool),
    Unsigned(u64),
    OtherNumber,
    Text(String),
    Array(Vec<JsonNode>),
    Object(Vec<(String, JsonNode)>),
}

/// The document that a byte string holds, read as JSON; nothing where it is
/// not one JSON document.
pub uninterp spec fn json_document(bytes: Seq<u8>) -> Option<JsonNode>;

/// The bytes that a document is written as.
pub uninterp spec fn json_bytes(node: JsonNode) -> Seq<u8>;

/// Copies a value of `serde_json`, variant by variant; the entries of an
/// object come in the order in which its map hands them out.
#[verifier::external_body]
fn json_node(value: &Value) -> JsonNode {
    match value {
        Value::Null => JsonNode::Null,
        Value::Bool(flag) => JsonNode::Bool(*flag),
        Value::Number(number) => match number.as_u64() {
            Some(n) => JsonNode::Unsigned(n),
            None => JsonNode::OtherNumber,
        },
        Value::String(text) => JsonNode::Text(text.clone()),
        Value::Array(items) => JsonNode::Array(items.iter().map(json_node).collect()),
        Value::Object(map) => JsonNode::Object(
            map.iter().map(|(key, value)| (key.clone(), json_node(value))).collect(),
        ),
    }
}

/// Copies a node to a value of `serde_json`, variant by variant;
/// `OtherNumber`, which holds no number, becomes null.
#[verifier::external_body]
fn json_value(node: &JsonNode) -> Value {
    match node {
        JsonNode::Null | JsonNode::OtherNumber => Value::Null,
        JsonNode::Bool(flag) => Value::Bool(*flag),
        JsonNode::Unsigned(n) => Value::Number(Number::from(*n)),
        JsonNode::Text(text) => Value::String(text.clone()),
        JsonNode::Array(items) => Value::Array(items.iter().map(json_value).collect()),
        JsonNode::Object(entries) => Value::Object(
            entries.iter().map(|(key, value)| (key.clone(), json_value(value))).collect::<serde_json::Map<_, _>>(),
        ),
    }
}

/// `serde_json::from_slice`, to a `Value`: the document that the bytes
/// hold, or nothing where they are not one JSON document.
#[verifier::external_body]
pub(crate) fn parse_json(bytes: &[u8]) -> (node: Option<JsonNode>)
    ensures
        node == json_document(bytes@),
{
    match serde_json::from_slice::<Value>(bytes) {
        Ok(value) => Some(json_node(&value)),
        Err(_) => None,
    }
}

/// `serde_json::to_vec`, of a `Value`: the bytes of the document, without
/// layout.
#[verifier::external_body]
pub(crate) fn write_json(node: &JsonNode) -> (bytes: Vec<u8>)
    ensures
        bytes@ == json_bytes(*node),
{
    serde_json::to_vec(&json_value(node)).unwrap_or_default()
}

/// The value of the first entry of an object under the name `name`.
pub open spec fn field_of(entries: Seq<(String, JsonNode)>, name: Seq<char>) -> Option<JsonNode>
    decreases entries.len(),
{
    if entries.len() == 0 {
        None
    } else if entries[0].0@ == name {
        Some(entries[0].1)
    } else {
        field_of(entries.drop_first(), name)
    }
}

/// The value of the first entry of an object under the name `name`.
pub fn field<'a>(entries: &'a Vec<(String, JsonNode)>, name: &str) -> (value: Option<&'a JsonNode>)
    ensures
        value is Some <==> field_of(entries@, name@) is Some,
        value matches Some(v) ==> field_of(entries@, name@) == Some(*v),
{
    let mut i: usize = 0;
    assert(entries@.skip(0) =~= entries@);
    while i < entries.len()
        invariant
            i <= entries@.len(),
            field_of(entries@, name@) == field_of(entries@.skip(i as int), name@),
        decreases entries@.len() - i,
    {
        let ghost rest = entries@.skip(i as int);
        assert(rest[0] == entries@[i as int]);
        assert(rest.drop_first() =~= entries@.skip(i + 1));
        if crate::text::str_eq(entries[i].0.as_str(), name) {
            return Some(&entries[i].1);
        }
        i += 1;
    }
    None
}

} // verus!
