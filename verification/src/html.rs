//! HTML parsing, done by the `select` crate.

use vstd::prelude::*;
use crate::document::{Attribute, Document, Node, NodeView};

verus! {

/// The nodes that `select::document::Document::from` makes of an HTML text,
/// in document order. Parsing follows the HTML5 tree-construction rules, which
/// are not restated here; only that the outcome depends on the text alone.
pub uninterp spec fn parsed_nodes(html: Seq<char>) -> Seq<NodeView>;

/// Parses `html` with `select::document::Document::from`, walks the outcome
/// with `select::document::Document::find` under `select::predicate::Any`,
/// which yields every node in index order, and copies each node into a
/// [`Node`]: the element name from `select::node::Node::name`, the attributes
/// from `select::node::Node::attrs`, the text from `select::node::Node::text`.
/// The contract only gives the outcome its name: it claims that the nodes
/// depend on the text alone, and nothing about their number or shape.
#[verifier::external_body]
pub(crate) fn parse_nodes(html: &str) -> (doc: Document)
    ensures
        doc@ == parsed_nodes(html@),
{
    let parsed = select::document::Document::from(html);
    let nodes = parsed.find(select::predicate::Any).map(|node| Node {
        name: node.name().map(str::to_owned),
        attrs: node.attrs().map(|(name, value)| Attribute {
            name: name.to_owned(),
            value: value.to_owned(),
        }).collect(),
        text: node.text(),
    }).collect();
    Document { nodes }
}

} // verus!
