//! The crate's own JSON document tree, and the trusted boundary to
//! `serde_json`, which parses response bodies into it.
//!
//! All response-shaping logic (envelope lookup, field tables, numeric
//! coercion) is verified over [`JsonNode`]; only the parse from text into the
//! tree is trusted.

use vstd::prelude::*;
use crate::text::str_eq;

verus! {

/// A JSON value, with every scalar held as plain data. A number is kept as
/// its literal text, since the portal's numeric cells are re-parsed under
/// the tolerant coercion policy.
pub enum JsonNode {
    Null,
    Bool(bool),
    Number(String),
    Text(String),
    Array(Vec<JsonNode>),
    Object(Vec<(String, JsonNode)>),
}

#[verifier::external_type_specification]
#[verifier::external_body]
pub struct ExJsonValue(serde_json::Value);

/// The JSON document denoted by a text, if it is one; the meaning given to
/// `serde_json`'s parser.
pub uninterp spec fn json_doc_of(s: Seq<char>) -> Option<JsonNode>;

/// Relies on `serde_json::from_str::<serde_json::Value>`: returns the text's
/// JSON document, `None` when the text is not valid JSON. The result is a
/// function of the text alone.
#[verifier::external_body]
pub fn parse_document(s: &str) -> (r: Option<JsonNode>)
    ensures
        r == json_doc_of(s@),
{
    match serde_json::from_str::<serde_json::Value>(s) {
        Ok(v) => Some(node_of_value(&v)),
        Err(_) => None,
    }
}

/// Relies on `serde_json::Value`'s variants: copies a parsed document into
/// the crate's own tree, one node per node, a number as its literal text.
/// Serves only `parse_document` above.
#[verifier::external_body]
fn node_of_value(v: &serde_json::Value) -> JsonNode {
    match v {
        serde_json::Value::Null => JsonNode::Null,
        serde_json::Value::Bool(b) => JsonNode::Bool(*b),
        serde_json::Value::Number(n) => JsonNode::Number(n.to_string()),
        serde_json::Value::String(s) => JsonNode::Text(s.clone()),
        serde_json::Value::Array(items) => JsonNode::Array(
            items.iter().map(|x| node_of_value(x)).collect(),
        ),
        serde_json::Value::Object(fields) => JsonNode::Object(
            fields.iter().map(|(k, x)| (k.clone(), node_of_value(x))).collect(),
        ),
    }
}

/// Position of the first field named `key` at or after `from`.
pub open spec fn spec_field_index(
    fields: Seq<(String, JsonNode)>,
    key: Seq<char>,
    from: int,
) -> Option<int>
    decreases fields.len() - from + 1,
{
    if from < 0 || from >= fields.len() {
        None
    } else if fields[from].0@ == key {
        Some(from)
    } else {
        spec_field_index(fields, key, from + 1)
    }
}

/// The member named `key` of an object node, if the node is an object and
/// has one.
pub open spec fn spec_obj_get(node: JsonNode, key: Seq<char>) -> Option<JsonNode> {
    match node {
        JsonNode::Object(fields) => match spec_field_index(fields@, key, 0) {
            Some(i) => Some(fields@[i].1),
            None => None,
        },
        _ => None,
    }
}

/// The elements of an array node.
pub open spec fn spec_as_array(node: JsonNode) -> Option<Seq<JsonNode>> {
    match node {
        JsonNode::Array(items) => Some(items@),
        _ => None,
    }
}

/// The text of a string node.
pub open spec fn spec_text(node: JsonNode) -> Option<Seq<char>> {
    match node {
        JsonNode::Text(s) => Some(s@),
        _ => None,
    }
}

/// The literal text of a scalar cell: a string's characters or a number's
/// literal; `None` for anything else.
pub open spec fn spec_scalar(node: JsonNode) -> Option<Seq<char>> {
    match node {
        JsonNode::Text(s) => Some(s@),
        JsonNode::Number(s) => Some(s@),
        _ => None,
    }
}

impl JsonNode {
    /// Looks up a member of an object node.
    pub fn get<'a>(&'a self, key: &str) -> (r: Option<&'a JsonNode>)
        ensures
            match r {
                Some(n) => spec_obj_get(*self, key@) == Some(*n),
                None => spec_obj_get(*self, key@) is None,
            },
    {
        match self {
            JsonNode::Object(fields) => {
                let n = fields.len();
                let mut i: usize = 0;
                while i < n
                    invariant
                        i <= n,
                        n == fields@.len(),
                        *self == JsonNode::Object(*fields),
                        spec_field_index(fields@, key@, 0) == spec_field_index(
                            fields@,
                            key@,
                            i as int,
                        ),
                    decreases n - i,
                {
                    if str_eq(fields[i].0.as_str(), key) {
                        proof {
                            assert(spec_field_index(fields@, key@, i as int) == Some(i as int));
                            assert(*self == JsonNode::Object(*fields));
                        }
                        return Some(&fields[i].1);
                    }
                    i += 1;
                }
                None
            },
            _ => None,
        }
    }

    /// The elements of an array node.
    pub fn as_array<'a>(&'a self) -> (r: Option<&'a Vec<JsonNode>>)
        ensures
            match r {
                Some(items) => spec_as_array(*self) == Some(items@),
                None => spec_as_array(*self) is None,
            },
    {
        match self {
            JsonNode::Array(items) => Some(items),
            _ => None,
        }
    }

    /// The text of a string node.
    pub fn as_text<'a>(&'a self) -> (r: Option<&'a String>)
        ensures
            match r {
                Some(s) => spec_text(*self) == Some(s@),
                None => spec_text(*self) is None,
            },
    {
        match self {
            JsonNode::Text(s) => Some(s),
            _ => None,
        }
    }

    /// The literal text of a scalar cell (string or number).
    pub fn as_scalar<'a>(&'a self) -> (r: Option<&'a String>)
        ensures
            match r {
                Some(s) => spec_scalar(*self) == Some(s@),
                None => spec_scalar(*self) is None,
            },
    {
        match self {
            JsonNode::Text(s) => Some(s),
            JsonNode::Number(s) => Some(s),
            _ => None,
        }
    }
}

} // verus!
