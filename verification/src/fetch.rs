//! What a fetch can end in, and what follows from each ending.

use vstd::prelude::*;
use vstd::string::StringExecFns;
use crate::document::Document;
use crate::error::ScrapeError;
use crate::finder::{find_element_by_attr, outcome_view, selected};
use crate::html::parsed_nodes;
use crate::query::opt_view;

verus! {

/// How one HTTP GET ended.
#[derive(Debug, PartialEq, Eq)]
pub enum FetchOutcome {
    /// A response with a success status arrived; this is its body.
    Success(String),
    /// A response arrived with this status code, which is not a success.
    HttpFailure(u16),
    /// No response arrived; the string describes why.
    TransportFailure(String),
}

/// Success statuses are the codes from 200 to 299.
pub open spec fn success_status(status: u16) -> bool {
    200 <= status <= 299
}

/// Whether `status` is a success status.
pub fn is_success(status: u16) -> (ok: bool)
    ensures
        ok == success_status(status),
{
    200 <= status && status < 300
}

impl FetchOutcome {
    /// Classifies a response that arrived with `status` and `body`: a success
    /// keeps the body, anything else keeps only the status code.
    pub fn from_response(status: u16, body: String) -> (outcome: FetchOutcome)
        ensures
            outcome == if success_status(status) {
                FetchOutcome::Success(body)
            } else {
                FetchOutcome::HttpFailure(status)
            },
    {
        if is_success(status) {
            FetchOutcome::Success(body)
        } else {
            FetchOutcome::HttpFailure(status)
        }
    }
}

/// What a run yields for a fetch outcome: the selection over the parsed body
/// after a success, and otherwise the failure, with no selection made.
pub open spec fn extracted(
    outcome: FetchOutcome,
    tag: Seq<char>,
    attr_name: Option<Seq<char>>,
    attr_value: Option<Seq<char>>,
) -> Result<Seq<Seq<char>>, ScrapeError> {
    match outcome {
        FetchOutcome::Success(body) => selected(tag, attr_name, attr_value, parsed_nodes(body@)),
        FetchOutcome::HttpFailure(status) => Err(ScrapeError::HttpFailure(status)),
        FetchOutcome::TransportFailure(description) => Err(
            ScrapeError::TransportFailure(description),
        ),
    }
}

/// Carries a fetch outcome through to the texts: a successful body is parsed
/// and searched; a failed fetch is reported as it is, and nothing is parsed
/// or searched.
pub fn extract(
    outcome: FetchOutcome,
    tag_name: &str,
    attr_name: Option<&str>,
    attr_value: Option<&str>,
) -> (result: Result<Vec<String>, ScrapeError>)
    ensures
        outcome_view(result) == extracted(
            outcome,
            tag_name@,
            opt_view(attr_name),
            opt_view(attr_value),
        ),
{
    match outcome {
        FetchOutcome::Success(body) => {
            let document = Document::parse(body.as_str());
            find_element_by_attr(tag_name, attr_name, attr_value, &document)
        },
        FetchOutcome::HttpFailure(status) => Err(ScrapeError::HttpFailure(status)),
        FetchOutcome::TransportFailure(description) => Err(
            ScrapeError::TransportFailure(description),
        ),
    }
}

/// The output line for one extracted text: `Element: ` followed by the text.
pub fn element_line(text: &str) -> (line: String)
    ensures
        line@ == "Element: "@ + text@,
{
    let mut line = "Element: ".to_owned();
    line.append(text);
    line
}

} // verus!
