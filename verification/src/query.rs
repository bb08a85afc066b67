//! Element queries: what to look for, validated before any document is read.

use vstd::prelude::*;
use crate::document::{texts_view, texts_where, Document, NodeView};
use crate::error::ScrapeError;
use crate::finder::{find_element, find_element_with_attr};

verus! {

/// A validated query. An attribute constraint always has both a name and a
/// value; a query with only one of them cannot be built.
#[derive(Debug, Clone, Copy, PartialEq, Eq)]
pub enum ElementQuery<'a> {
    /// Elements with the given tag name.
    ByTagOnly { tag: &'a str },
    /// Elements with the given tag name whose attribute `attr_name` has the
    /// value `attr_value`.
    ByTagAndAttribute { tag: &'a str, attr_name: &'a str, attr_value: &'a str },
}

/// Mathematical view of an [`ElementQuery`].
pub enum QueryView {
    ByTagOnly { tag: Seq<char> },
    ByTagAndAttribute { tag: Seq<char>, attr_name: Seq<char>, attr_value: Seq<char> },
}

impl QueryView {
    /// Whether `node` is one of the nodes the query asks for.
    pub open spec fn accepts(self, node: NodeView) -> bool {
        match self {
            QueryView::ByTagOnly { tag } => node.has_name(tag),
            QueryView::ByTagAndAttribute { tag, attr_name, attr_value } => node.has_name(tag)
                && node.has_attr(attr_name, attr_value),
        }
    }
}

impl<'a> View for ElementQuery<'a> {
    type V = QueryView;

    open spec fn view(&self) -> QueryView {
        match self {
            ElementQuery::ByTagOnly { tag } => QueryView::ByTagOnly { tag: tag@ },
            ElementQuery::ByTagAndAttribute { tag, attr_name, attr_value } => {
                QueryView::ByTagAndAttribute {
                    tag: tag@,
                    attr_name: attr_name@,
                    attr_value: attr_value@,
                }
            },
        }
    }
}

/// The characters of an optional string.
pub open spec fn opt_view(s: Option<&str>) -> Option<Seq<char>> {
    match s {
        Some(t) => Some(t@),
        None => None,
    }
}

/// The query that a tag name with an optional attribute name and an optional
/// attribute value stands for: with both, tag and attribute; with neither,
/// the tag alone; with exactly one of them, none.
pub open spec fn query_for(
    tag: Seq<char>,
    attr_name: Option<Seq<char>>,
    attr_value: Option<Seq<char>>,
) -> Option<QueryView> {
    match (attr_name, attr_value) {
        (Some(name), Some(value)) => Some(
            QueryView::ByTagAndAttribute { tag, attr_name: name, attr_value: value },
        ),
        (None, None) => Some(QueryView::ByTagOnly { tag }),
        _ => None,
    }
}

impl<'a> ElementQuery<'a> {
    /// Builds the query for `tag`, `attr_name` and `attr_value`, or fails
    /// with [`ScrapeError::Validation`] when exactly one of the two attribute
    /// parts is given. No document is involved.
    pub fn new(tag: &'a str, attr_name: Option<&'a str>, attr_value: Option<&'a str>) -> (query:
        Result<ElementQuery<'a>, ScrapeError>)
        ensures
            match query_for(tag@, opt_view(attr_name), opt_view(attr_value)) {
                Some(q) => query matches Ok(built) && built@ == q,
                None => query == Err::<ElementQuery<'a>, ScrapeError>(ScrapeError::Validation),
            },
    {
        match (attr_name, attr_value) {
            (Some(name), Some(value)) => Ok(
                ElementQuery::ByTagAndAttribute { tag, attr_name: name, attr_value: value },
            ),
            (None, None) => Ok(ElementQuery::ByTagOnly { tag }),
            _ => Err(ScrapeError::Validation),
        }
    }

    /// Runs the query: the text of every node of `document` that the query
    /// accepts, in document order.
    pub fn run(&self, document: &Document) -> (texts: Vec<String>)
        ensures
            texts_view(texts@) == texts_where(document@, |n: NodeView| self@.accepts(n)),
    {
        match *self {
            ElementQuery::ByTagOnly { tag } => {
                assert((|n: NodeView| n.has_name(tag@)) =~= (|n: NodeView| self@.accepts(n)));
                find_element(tag, document)
            },
            ElementQuery::ByTagAndAttribute { tag, attr_name, attr_value } => {
                assert((|n: NodeView| n.has_name(tag@) && n.has_attr(attr_name@, attr_value@))
                    =~= (|n: NodeView| self@.accepts(n)));
                find_element_with_attr(tag, attr_name, attr_value, document)
            },
        }
    }
}

} // verus!
