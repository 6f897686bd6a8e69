//! What one run of the parser came to.

use crate::engine::{debug_string, debug_text, parse_entry, parsed, parser_made};
use ream::ream::{Entry, ReamError};
use vstd::prelude::*;
use vstd::utf8::is_ascii_chars;

verus! {

/// The three ways in which parsing a document can end.
#[derive(Debug, PartialEq, Eq)]
pub enum ParseResult {
    /// The document holds an entry.
    Parsed(Entry),
    /// The parser finished without an error and without an entry.
    NoEntry,
    /// The parser refused the document. The text says why; it is the `Debug`
    /// form of the parser's error and is not interpreted any further.
    ParseFailed(String),
}

/// A [`ParseResult`] with its diagnostic as a sequence of characters.
pub enum ParseView {
    Parsed(Entry),
    NoEntry,
    ParseFailed(Seq<char>),
}

impl View for ParseResult {
    type V = ParseView;

    open spec fn view(&self) -> ParseView {
        match *self {
            ParseResult::Parsed(entry) => ParseView::Parsed(entry),
            ParseResult::NoEntry => ParseView::NoEntry,
            ParseResult::ParseFailed(diagnostic) => ParseView::ParseFailed(diagnostic@),
        }
    }
}

/// The class of a result of the parser: an entry, nothing, or the diagnostic
/// of its error.
pub open spec fn classified(result: Result<Option<Entry>, ReamError>) -> ParseView {
    match result {
        Ok(Some(entry)) => ParseView::Parsed(entry),
        Ok(None) => ParseView::NoEntry,
        Err(err) => ParseView::ParseFailed(debug_text(err)),
    }
}

/// Sorts a result of the parser into its class. An error is kept as its
/// `Debug` text, which is never empty.
pub fn classify(result: Result<Option<Entry>, ReamError>) -> (class: ParseResult)
    ensures
        class@ == classified(result),
        class matches ParseResult::ParseFailed(diagnostic) ==> diagnostic@.len() > 0,
{
    match result {
        Ok(Some(entry)) => ParseResult::Parsed(entry),
        Ok(None) => ParseResult::NoEntry,
        Err(err) => ParseResult::ParseFailed(debug_string(&err)),
    }
}

/// Parses `text` from its first character, with no memory of earlier runs.
pub fn run(text: &str) -> (class: ParseResult)
    requires
        is_ascii_chars(text@),
    ensures
        class@ == classified(parsed(text@)),
        class matches ParseResult::Parsed(entry) ==> parser_made(entry),
        class matches ParseResult::ParseFailed(diagnostic) ==> diagnostic@.len() > 0,
{
    classify(parse_entry(text))
}

} // verus!
