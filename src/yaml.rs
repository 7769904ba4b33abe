use vstd::prelude::*;

use crate::node::Node;

verus! {

#[verifier::external_type_specification]
#[verifier::external_body]
pub struct ExYamlValue(serde_yaml::Value);

/// The tree that serde_yaml reads from a YAML text; `None` where it rejects the text.
pub uninterp spec fn yaml_tree(text: Seq<char>) -> Option<Node>;

/// Relies on `serde_yaml::from_str::<serde_yaml::Value>`: whether it accepts a
/// text, and the tree it reads, depend on the text alone. On failure the
/// message is serde_yaml's own.
#[verifier::external_body]
pub(crate) fn parse_yaml(text: &str) -> (r: Result<Node, String>)
    ensures
        match r {
            Ok(n) => yaml_tree(text@) == Some(n),
            Err(_) => yaml_tree(text@) is None,
        },
{
    match serde_yaml::from_str::<serde_yaml::Value>(text) {
        Ok(v) => Ok(node_of_value(v)),
        Err(e) => Err(e.to_string()),
    }
}

/// Relies on the variants of `serde_yaml::Value` and on the `Display` of
/// `serde_yaml::Number` and of `serde_yaml::value::Tag`: rebuilds the tree
/// node for node, mapping entries in their order.
#[verifier::external_body]
fn node_of_value(v: serde_yaml::Value) -> Node {
    match v {
        serde_yaml::Value::Null => Node::Null,
        serde_yaml::Value::Bool(b) => Node::Bool(b),
        serde_yaml::Value::Number(x) => Node::Number(x.to_string()),
        serde_yaml::Value::String(s) => Node::Str(s),
        serde_yaml::Value::Sequence(items) => Node::Sequence(items.into_iter().map(node_of_value).collect()),
        serde_yaml::Value::Mapping(m) => Node::Mapping(
            m.into_iter().map(|(k, x)| (node_of_value(k), node_of_value(x))).collect(),
        ),
        serde_yaml::Value::Tagged(t) => Node::Tagged(t.tag.to_string(), Box::new(node_of_value(t.value))),
    }
}

} // verus!
