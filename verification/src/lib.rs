//! Text extraction from parsed HTML: pick the elements of a document by tag
//! name, optionally narrowed by one attribute, and return their text in
//! document order.
//!
//! [`finder::find_element_by_attr`] is the entry point for a document at
//! hand; [`fetch::extract`] starts from the outcome of an HTTP fetch.
//! HTML is parsed by the `select` crate ([`document::Document::parse`]);
//! matching and traversal are done, and proved, here.

pub mod document;
pub mod error;
pub mod fetch;
pub mod finder;
pub mod html;
pub mod predicate;
pub mod query;

pub use document::{Attribute, Document, Node};
pub use error::ScrapeError;
pub use fetch::{element_line, extract, is_success, FetchOutcome};
pub use finder::{find_element, find_element_by_attr, find_element_with_attr};
pub use predicate::{And, Attr, Name, Predicate};
pub use query::ElementQuery;
