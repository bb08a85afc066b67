//! Node predicates and their conjunction.
//!
//! A predicate decides, node by node, whether the node belongs to a result.
//! Traversal code is written once against the [`Predicate`] trait; new kinds
//! of predicate are added by implementing it.

use vstd::prelude::*;
use crate::document::{Node, NodeView};

verus! {

/// A test on a single node.
pub trait Predicate {
    /// Whether the predicate accepts a node with the given view.
    spec fn accepts(&self, node: NodeView) -> bool;

    /// Decides `accepts` for a concrete node.
    fn matches(&self, node: &Node) -> (hit: bool)
        ensures
            hit == self.accepts(node@),
    ;
}

/// Accepts the elements whose tag name is the given string.
pub struct Name(pub String);

/// Accepts the nodes whose attribute `.0` has the value `.1`.
pub struct Attr(pub String, pub String);

/// Accepts the nodes that both parts accept.
pub struct And<A, B>(pub A, pub B);

impl Predicate for Name {
    open spec fn accepts(&self, node: NodeView) -> bool {
        node.has_name(self.0@)
    }

    fn matches(&self, node: &Node) -> (hit: bool) {
        match &node.name {
            Some(name) => *name == self.0,
            None => false,
        }
    }
}

impl Predicate for Attr {
    open spec fn accepts(&self, node: NodeView) -> bool {
        node.has_attr(self.0@, self.1@)
    }

    fn matches(&self, node: &Node) -> (hit: bool) {
        match node.attr(&self.0) {
            Some(value) => *value == self.1,
            None => false,
        }
    }
}

impl<A: Predicate, B: Predicate> Predicate for And<A, B> {
    open spec fn accepts(&self, node: NodeView) -> bool {
        self.0.accepts(node) && self.1.accepts(node)
    }

    fn matches(&self, node: &Node) -> (hit: bool) {
        self.0.matches(node) && self.1.matches(node)
    }
}

} // verus!
