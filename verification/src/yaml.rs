//! The document codec boundary: parsing document text into a `DocNode` tree
//! and serializing a `DocNode` tree back to text, through `serde_yaml`.
//!
//! Both directions are deterministic functions of their argument, so each is
//! named by an uninterpreted spec function that the trusted wrappers apply;
//! everything on either side of these two calls is verified.

use vstd::prelude::*;

use crate::value::{DocModel, DocNode};

verus! {

/// The parser's tree type, declared so that the conversion helpers below can
/// name it; the library never looks inside a value of it.
#[verifier::external_type_specification]
#[verifier::external_body]
pub struct ExValue(serde_yaml::Value);

/// The parser's numeric scalar type, declared for the same reason.
#[verifier::external_type_specification]
#[verifier::external_body]
pub struct ExNumber(serde_yaml::Number);

/// What parsing a document text yields: the parsed tree, or the parser's
/// diagnostic message for text that is not a well-formed document.
pub uninterp spec fn yaml_parse(text: Seq<char>) -> Result<DocModel, Seq<char>>;

/// What serializing a tree yields: the document text, or the serializer's
/// message where it refuses the tree (a numeric-text scalar its number parser
/// does not take back, or a shape the document format cannot carry).
pub uninterp spec fn yaml_emit(doc: DocModel) -> Result<Seq<char>, Seq<char>>;

/// Converts a numeric scalar: an exact signed 64-bit integer where it is
/// one, else its canonical scalar text.
#[verifier::external_body]
fn node_of_num(n: serde_yaml::Number) -> DocNode {
    match n.as_i64() {
        Some(i) => DocNode::Int(i),
        None => DocNode::Float(n.to_string()),
    }
}

/// Converts the parsed tree one node at a time, in element and entry order;
/// a tagged node reads as the node under its tag.
#[verifier::external_body]
fn node_of_yaml(v: serde_yaml::Value) -> DocNode {
    match v {
        serde_yaml::Value::Null => DocNode::Null,
        serde_yaml::Value::Bool(b) => DocNode::Bool(b),
        serde_yaml::Value::Number(n) => node_of_num(n),
        serde_yaml::Value::String(s) => DocNode::Str(s),
        serde_yaml::Value::Sequence(items) => DocNode::Sequence(items.into_iter().map(node_of_yaml).collect()),
        serde_yaml::Value::Mapping(m) => DocNode::Mapping(m.into_iter().map(|(k, val)| (node_of_yaml(k), node_of_yaml(val))).collect()),
        serde_yaml::Value::Tagged(t) => node_of_yaml(t.value),
    }
}

/// Rebuilds a numeric-text scalar through the codec's own number parser,
/// with that parser's message where it does not take the text back.
#[verifier::external_body]
fn yaml_of_num(t: &str) -> Result<serde_yaml::Value, String> {
    match t.parse::<serde_yaml::Number>() {
        Ok(num) => Ok(serde_yaml::Value::Number(num)),
        Err(e) => Err(e.to_string()),
    }
}

/// Converts a mapping's entries in order; an entry with a repeated key keeps
/// the last value, as the codec's own mapping type does.
#[verifier::external_body]
fn yaml_of_map(pairs: &Vec<(DocNode, DocNode)>) -> Result<serde_yaml::Value, String> {
    let mut m = serde_yaml::Mapping::new();
    for (k, v) in pairs {
        m.insert(yaml_of_node(k)?, yaml_of_node(v)?);
    }
    Ok(serde_yaml::Value::Mapping(m))
}

/// Converts a tree one node at a time for the serializer, in element and
/// entry order.
#[verifier::external_body]
fn yaml_of_node(n: &DocNode) -> Result<serde_yaml::Value, String> {
    match n {
        DocNode::Null => Ok(serde_yaml::Value::Null),
        DocNode::Bool(b) => Ok(serde_yaml::Value::Bool(*b)),
        DocNode::Int(i) => Ok(serde_yaml::Value::Number(serde_yaml::Number::from(*i))),
        DocNode::Float(t) => yaml_of_num(t.as_str()),
        DocNode::Str(s) => Ok(serde_yaml::Value::String(s.clone())),
        DocNode::Sequence(items) => items.iter().map(yaml_of_node).collect::<Result<Vec<serde_yaml::Value>, String>>().map(serde_yaml::Value::Sequence),
        DocNode::Mapping(pairs) => yaml_of_map(pairs),
    }
}

/// Relies on `serde_yaml::from_str`: parses document text into the parser's
/// tree, which `node_of_yaml` converts; fails with the parser's diagnostic on
/// malformed text. The outcome depends on the text alone.
#[verifier::external_body]
pub(crate) fn parse_document(text: &str) -> (r: Result<DocNode, String>)
    ensures
        r matches Ok(n) ==> yaml_parse(text@) matches Ok(m) && n@ == m,
        r matches Err(e) ==> yaml_parse(text@) matches Err(m) && e@ == m,
{
    match serde_yaml::from_str::<serde_yaml::Value>(text) {
        Ok(v) => Ok(node_of_yaml(v)),
        Err(e) => Err(e.to_string()),
    }
}

/// Relies on `serde_yaml::to_string`: serializes the tree that `yaml_of_node`
/// converts into document text; fails with the serializer's message where it
/// refuses the tree. The outcome depends on the tree alone.
#[verifier::external_body]
pub(crate) fn emit_document(n: &DocNode) -> (r: Result<String, String>)
    ensures
        r matches Ok(text) ==> yaml_emit(n@) matches Ok(m) && text@ == m,
        r matches Err(e) ==> yaml_emit(n@) matches Err(m) && e@ == m,
{
    match yaml_of_node(n) {
        Ok(v) => match serde_yaml::to_string(&v) {
            Ok(text) => Ok(text),
            Err(e) => Err(e.to_string()),
        },
        Err(e) => Err(e),
    }
}

} // verus!
