//! Finding elements in a document and extracting their text.

use vstd::prelude::*;
use crate::document::{lemma_texts_where_none, texts_view, texts_where, Document, NodeView};
use crate::error::ScrapeError;
use crate::predicate::{And, Attr, Name, Predicate};
use crate::query::{opt_view, query_for, ElementQuery};

verus! {

/// What a selection yields: for a well-formed request, the text of every node
/// the query accepts, in document order; for a request with exactly one of
/// attribute name and value, the validation error.
pub open spec fn selected(
    tag: Seq<char>,
    attr_name: Option<Seq<char>>,
    attr_value: Option<Seq<char>>,
    nodes: Seq<NodeView>,
) -> Result<Seq<Seq<char>>, ScrapeError> {
    match query_for(tag, attr_name, attr_value) {
        Some(query) => Ok(texts_where(nodes, |n: NodeView| query.accepts(n))),
        None => Err(ScrapeError::Validation),
    }
}

/// The outcome of a selection with the texts taken as character sequences.
pub open spec fn outcome_view(outcome: Result<Vec<String>, ScrapeError>) -> Result<
    Seq<Seq<char>>,
    ScrapeError,
> {
    match outcome {
        Ok(texts) => Ok(texts_view(texts@)),
        Err(e) => Err(e),
    }
}

/// The text of every element of `document` whose tag name is `tag_name`, in
/// document order.
pub fn find_element(tag_name: &str, document: &Document) -> (texts: Vec<String>)
    ensures
        texts_view(texts@) == texts_where(document@, |n: NodeView| n.has_name(tag_name@)),
{
    let predicate = Name(tag_name.to_owned());
    assert((|n: NodeView| predicate.accepts(n)) =~= (|n: NodeView| n.has_name(tag_name@)));
    document.find(&predicate)
}

/// The text of every element of `document` whose tag name is `tag_name` and
/// whose attribute `attr_name` has the value `attr_value`, in document order.
/// The two conditions are composed from a name predicate and an attribute
/// predicate.
pub fn find_element_with_attr(
    tag_name: &str,
    attr_name: &str,
    attr_value: &str,
    document: &Document,
) -> (texts: Vec<String>)
    ensures
        texts_view(texts@) == texts_where(
            document@,
            |n: NodeView| n.has_name(tag_name@) && n.has_attr(attr_name@, attr_value@),
        ),
{
    let predicate = And(Name(tag_name.to_owned()), Attr(attr_name.to_owned(), attr_value.to_owned()));
    assert((|n: NodeView| predicate.accepts(n)) =~= (|n: NodeView|
        n.has_name(tag_name@) && n.has_attr(attr_name@, attr_value@)));
    document.find(&predicate)
}

/// Selects by tag name and, optionally, by one attribute.
///
/// With both `attr_name` and `attr_value`, the result holds the text of every
/// element named `tag_name` whose attribute has that value; with neither, the
/// text of every element named `tag_name`. With exactly one of them the call
/// fails with [`ScrapeError::Validation`]. A document without a matching
/// element gives `Ok` of an empty list.
pub fn find_element_by_attr(
    tag_name: &str,
    attr_name: Option<&str>,
    attr_value: Option<&str>,
    document: &Document,
) -> (outcome: Result<Vec<String>, ScrapeError>)
    ensures
        outcome_view(outcome) == selected(
            tag_name@,
            opt_view(attr_name),
            opt_view(attr_value),
            document@,
        ),
{
    match ElementQuery::new(tag_name, attr_name, attr_value) {
        Ok(query) => Ok(query.run(document)),
        Err(e) => Err(e),
    }
}

/// With exactly one of attribute name and attribute value, in either
/// position, a selection fails with the validation error, whatever the
/// document holds.
pub proof fn lemma_partial_attribute_rejected(
    tag: Seq<char>,
    part: Seq<char>,
    nodes: Seq<NodeView>,
)
    ensures
        selected(tag, Some(part), None, nodes) == Err::<Seq<Seq<char>>, ScrapeError>(
            ScrapeError::Validation,
        ),
        selected(tag, None, Some(part), nodes) == Err::<Seq<Seq<char>>, ScrapeError>(
            ScrapeError::Validation,
        ),
{
}

/// Without an attribute, a selection succeeds with the text of every element
/// whose tag name is `tag`, in document order.
pub proof fn lemma_tag_only_selection(tag: Seq<char>, nodes: Seq<NodeView>)
    ensures
        selected(tag, None, None, nodes) == Ok::<Seq<Seq<char>>, ScrapeError>(
            texts_where(nodes, |n: NodeView| n.has_name(tag)),
        ),
{
    let query = query_for(tag, None, None).unwrap();
    assert((|n: NodeView| query.accepts(n)) =~= (|n: NodeView| n.has_name(tag)));
}

/// With attribute name and value, a selection succeeds with the text of every
/// element whose tag name is `tag` and whose attribute `attr_name` has the
/// value `attr_value`, in document order.
pub proof fn lemma_tag_and_attribute_selection(
    tag: Seq<char>,
    attr_name: Seq<char>,
    attr_value: Seq<char>,
    nodes: Seq<NodeView>,
)
    ensures
        selected(tag, Some(attr_name), Some(attr_value), nodes) == Ok::<
            Seq<Seq<char>>,
            ScrapeError,
        >(texts_where(nodes, |n: NodeView| n.has_name(tag) && n.has_attr(attr_name, attr_value))),
{
    let query = query_for(tag, Some(attr_name), Some(attr_value)).unwrap();
    assert((|n: NodeView| query.accepts(n)) =~= (|n: NodeView|
        n.has_name(tag) && n.has_attr(attr_name, attr_value)));
}

/// Selecting again with the same arguments on the same document gives the
/// same outcome: any two results that `find_element_by_attr` may return for
/// them agree, texts and their order included.
pub proof fn lemma_selection_repeatable(
    tag: Seq<char>,
    attr_name: Option<Seq<char>>,
    attr_value: Option<Seq<char>>,
    nodes: Seq<NodeView>,
    first: Result<Vec<String>, ScrapeError>,
    second: Result<Vec<String>, ScrapeError>,
)
    requires
        outcome_view(first) == selected(tag, attr_name, attr_value, nodes),
        outcome_view(second) == selected(tag, attr_name, attr_value, nodes),
    ensures
        outcome_view(first) == outcome_view(second),
{
}

/// A well-formed selection over a document in which no node satisfies the
/// query succeeds with no texts.
pub proof fn lemma_no_match_is_empty(
    tag: Seq<char>,
    attr_name: Option<Seq<char>>,
    attr_value: Option<Seq<char>>,
    nodes: Seq<NodeView>,
)
    requires
        query_for(tag, attr_name, attr_value) matches Some(query) && forall|i: int|
            0 <= i < nodes.len() ==> !query.accepts(#[trigger] nodes[i]),
    ensures
        selected(tag, attr_name, attr_value, nodes) == Ok::<Seq<Seq<char>>, ScrapeError>(
            Seq::empty(),
        ),
{
    let query = query_for(tag, attr_name, attr_value).unwrap();
    lemma_texts_where_none(nodes, |n: NodeView| query.accepts(n));
}

} // verus!
