//! The document model: a flat list of nodes in document order, each holding
//! its element name, its attributes and the text beneath it.

use vstd::prelude::*;
use crate::html::{parse_nodes, parsed_nodes};
use crate::predicate::Predicate;

verus! {

/// One attribute of an element.
#[derive(Debug, PartialEq, Eq)]
pub struct Attribute {
    pub name: String,
    pub value: String,
}

/// Mathematical view of an [`Attribute`].
pub struct AttributeView {
    pub name: Seq<char>,
    pub value: Seq<char>,
}

impl View for Attribute {
    type V = AttributeView;

    open spec fn view(&self) -> AttributeView {
        AttributeView { name: self.name@, value: self.value@ }
    }
}

/// A node of a document. `name` is `Some` exactly for elements; `text` is the
/// concatenated text of the node and everything below it.
#[derive(Debug, PartialEq, Eq)]
pub struct Node {
    pub name: Option<String>,
    pub attrs: Vec<Attribute>,
    pub text: String,
}

/// Mathematical view of a [`Node`].
pub struct NodeView {
    pub name: Option<Seq<char>>,
    pub attrs: Seq<AttributeView>,
    pub text: Seq<char>,
}

/// The value of the first attribute in `attrs` called `name`, if there is one.
pub open spec fn first_value(attrs: Seq<AttributeView>, name: Seq<char>) -> Option<Seq<char>>
    decreases attrs.len(),
{
    if attrs.len() == 0 {
        None
    } else if attrs[0].name == name {
        Some(attrs[0].value)
    } else {
        first_value(attrs.drop_first(), name)
    }
}

impl NodeView {
    /// The value this node carries for attribute `name`.
    pub open spec fn attr(self, name: Seq<char>) -> Option<Seq<char>> {
        first_value(self.attrs, name)
    }

    /// The node is an element whose tag name is `tag`.
    pub open spec fn has_name(self, tag: Seq<char>) -> bool {
        self.name == Some(tag)
    }

    /// The node carries attribute `name` with exactly the value `value`.
    pub open spec fn has_attr(self, name: Seq<char>, value: Seq<char>) -> bool {
        self.attr(name) == Some(value)
    }
}

impl View for Node {
    type V = NodeView;

    open spec fn view(&self) -> NodeView {
        NodeView {
            name: match self.name {
                Some(n) => Some(n@),
                None => None,
            },
            attrs: self.attrs@.map_values(|a: Attribute| a@),
            text: self.text@,
        }
    }
}

/// `first_value` skips a prefix in which no attribute is called `name`.
pub proof fn lemma_first_value_skip(attrs: Seq<AttributeView>, name: Seq<char>, k: int)
    requires
        0 <= k <= attrs.len(),
        forall|j: int| 0 <= j < k ==> attrs[j].name != name,
    ensures
        first_value(attrs, name) == first_value(attrs.skip(k), name),
    decreases k,
{
    if k == 0 {
        assert(attrs.skip(0) =~= attrs);
    } else {
        lemma_first_value_skip(attrs.drop_first(), name, k - 1);
        assert(attrs.drop_first().skip(k - 1) =~= attrs.skip(k));
    }
}

impl Node {
    /// Looks up attribute `name`: the value of the first attribute with that
    /// name, or `None` when the node has no such attribute.
    pub fn attr(&self, name: &String) -> (value: Option<&String>)
        ensures
            match value {
                Some(v) => self@.attr(name@) == Some(v@),
                None => self@.attr(name@) is None,
            },
    {
        let mut i: usize = 0;
        while i < self.attrs.len()
            invariant
                i <= self.attrs.len(),
                forall|j: int| 0 <= j < i ==> self@.attrs[j].name != name@,
            decreases self.attrs.len() - i,
        {
            if self.attrs[i].name == *name {
                proof {
                    lemma_first_value_skip(self@.attrs, name@, i as int);
                }
                return Some(&self.attrs[i].value);
            }
            i += 1;
        }
        proof {
            lemma_first_value_skip(self@.attrs, name@, i as int);
        }
        None
    }
}

/// A parsed document: its nodes in document order.
#[derive(Debug, PartialEq, Eq)]
pub struct Document {
    pub nodes: Vec<Node>,
}

impl View for Document {
    type V = Seq<NodeView>;

    open spec fn view(&self) -> Seq<NodeView> {
        self.nodes@.map_values(|n: Node| n@)
    }
}

/// The character sequences of a list of strings.
pub open spec fn texts_view(texts: Seq<String>) -> Seq<Seq<char>> {
    texts.map_values(|t: String| t@)
}

/// The text of every node of `nodes` that `keep` holds of, in the order of
/// `nodes`, once per such node.
pub open spec fn texts_where(nodes: Seq<NodeView>, keep: spec_fn(NodeView) -> bool) -> Seq<
    Seq<char>,
> {
    nodes.filter(keep).map_values(|n: NodeView| n.text)
}

/// Extending the nodes by one extends the texts by that node's text if
/// `keep` holds of it, and leaves them unchanged otherwise.
pub proof fn lemma_texts_where_push(
    nodes: Seq<NodeView>,
    keep: spec_fn(NodeView) -> bool,
    node: NodeView,
)
    ensures
        texts_where(nodes.push(node), keep) == if keep(node) {
            texts_where(nodes, keep).push(node.text)
        } else {
            texts_where(nodes, keep)
        },
{
    reveal(Seq::filter);
    assert(nodes.push(node).drop_last() =~= nodes);
    if keep(node) {
        assert(texts_where(nodes.push(node), keep) =~= texts_where(nodes, keep).push(node.text));
    }
}

/// `picks` lists, in increasing order, the positions of exactly the nodes
/// that `keep` holds of, and `texts` holds the texts of those nodes, one
/// entry per position and in the same order.
pub open spec fn picked_in_order(
    nodes: Seq<NodeView>,
    keep: spec_fn(NodeView) -> bool,
    picks: Seq<int>,
    texts: Seq<Seq<char>>,
) -> bool {
    &&& picks.len() == texts.len()
    &&& forall|k: int|
        0 <= k < picks.len() ==> 0 <= #[trigger] picks[k] < nodes.len() && keep(nodes[picks[k]])
            && texts[k] == nodes[picks[k]].text
    &&& forall|j: int, k: int| 0 <= j < k < picks.len() ==> picks[j] < picks[k]
    &&& forall|i: int| 0 <= i < nodes.len() && keep(#[trigger] nodes[i]) ==> picks.contains(i)
}

/// `texts_where` is the text of exactly the nodes that `keep` holds of, each
/// once, in document order: the returned positions witness it.
pub proof fn lemma_texts_where_in_document_order(
    nodes: Seq<NodeView>,
    keep: spec_fn(NodeView) -> bool,
) -> (picks: Seq<int>)
    ensures
        picked_in_order(nodes, keep, picks, texts_where(nodes, keep)),
    decreases nodes.len(),
{
    if nodes.len() == 0 {
        reveal(Seq::filter);
        Seq::empty()
    } else {
        let front = nodes.drop_last();
        let last = nodes.last();
        let at = nodes.len() - 1;
        let before = lemma_texts_where_in_document_order(front, keep);
        assert(front.push(last) =~= nodes);
        lemma_texts_where_push(front, keep, last);
        assert forall|k: int| 0 <= k < before.len() implies 0 <= #[trigger] before[k] < at && keep(
            nodes[before[k]],
        ) && texts_where(front, keep)[k] == nodes[before[k]].text by {
            assert(front[before[k]] == nodes[before[k]]);
        }
        if keep(last) {
            let picks = before.push(at);
            assert forall|i: int| 0 <= i < nodes.len() && keep(#[trigger] nodes[i]) implies picks.contains(
                i,
            ) by {
                if i < at {
                    assert(front[i] == nodes[i]);
                    let k = choose|k: int| 0 <= k < before.len() && before[k] == i;
                    assert(picks[k] == i);
                } else {
                    assert(picks[before.len() as int] == i);
                }
            }
            picks
        } else {
            assert forall|i: int| 0 <= i < nodes.len() && keep(#[trigger] nodes[i]) implies before.contains(
                i,
            ) by {
                assert(front[i] == nodes[i]);
            }
            before
        }
    }
}

/// Where `keep` holds of no node, there are no texts.
pub proof fn lemma_texts_where_none(nodes: Seq<NodeView>, keep: spec_fn(NodeView) -> bool)
    requires
        forall|i: int| 0 <= i < nodes.len() ==> !keep(#[trigger] nodes[i]),
    ensures
        texts_where(nodes, keep) == Seq::<Seq<char>>::empty(),
    decreases nodes.len(),
{
    reveal(Seq::filter);
    if nodes.len() == 0 {
        assert(texts_where(nodes, keep) =~= Seq::<Seq<char>>::empty());
    } else {
        let front = nodes.drop_last();
        assert forall|i: int| 0 <= i < front.len() implies !keep(#[trigger] front[i]) by {
            assert(front[i] == nodes[i]);
        }
        lemma_texts_where_none(front, keep);
        assert(!keep(nodes.last()));
    }
}

impl Document {
    /// Parses an HTML text into its nodes.
    pub fn parse(html: &str) -> (doc: Document)
        ensures
            doc@ == parsed_nodes(html@),
    {
        parse_nodes(html)
    }

    /// Collects the text of every node that `predicate` accepts, in document
    /// order. Nothing is merged: each accepted node contributes one entry,
    /// so equal texts may repeat.
    pub fn find<P: Predicate>(&self, predicate: &P) -> (texts: Vec<String>)
        ensures
            texts_view(texts@) == texts_where(self@, |n: NodeView| predicate.accepts(n)),
    {
        let ghost keep = |n: NodeView| predicate.accepts(n);
        let mut texts: Vec<String> = Vec::new();
        let mut i: usize = 0;
        proof {
            reveal(Seq::filter);
            assert(self@.take(0) =~= Seq::<NodeView>::empty());
            assert(texts_view(texts@) =~= texts_where(self@.take(0), keep));
        }
        while i < self.nodes.len()
            invariant
                i <= self.nodes.len(),
                keep == (|n: NodeView| predicate.accepts(n)),
                texts_view(texts@) == texts_where(self@.take(i as int), keep),
            decreases self.nodes.len() - i,
        {
            let node = &self.nodes[i];
            proof {
                lemma_texts_where_push(self@.take(i as int), keep, node@);
                assert(self@.take(i as int).push(node@) =~= self@.take(i + 1));
            }
            if predicate.matches(node) {
                let ghost before = texts@;
                let text = node.text.clone();
                texts.push(text);
                assert(texts_view(texts@) =~= texts_view(before).push(node@.text));
            }
            i += 1;
        }
        assert(self@.take(i as int) =~= self@);
        texts
    }
}

} // verus!
