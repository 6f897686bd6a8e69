//! The calls into the `ream` crate.
//!
//! Verus does not look inside `ream`. Each function here makes one call into
//! it and carries a contract that is believed, not proved. What the parser and
//! the renderers compute takes pages to state, but it depends on nothing
//! besides their arguments, so each result gets a name: a specification
//! function without a body that stands for "what `ream` returns here".
//!
//! The parser and the renderers walk a document by recursion. How much stack
//! that takes grows with the nesting of the document and is, as for any
//! recursion in Rust, outside of what these contracts state.

use ream::ream::{Entry, ReamError};
use vstd::prelude::*;
use vstd::utf8::is_ascii_chars;

verus! {

/// `ream::ream::Entry`: one parsed entry with its variables and subentries.
/// Nothing in this crate looks inside one; it is handed from the parser to a
/// renderer.
#[verifier::external_type_specification]
#[verifier::external_body]
pub struct ExEntry(ream::ream::Entry);

/// `ream::ream::ReamError`: why a document was refused.
#[verifier::external_type_specification]
#[verifier::external_body]
pub struct ExReamError(ream::ream::ReamError);

/// What `ream` makes of a whole document.
pub uninterp spec fn parsed(text: Seq<char>) -> Result<Option<Entry>, ReamError>;

/// The rows of an entry as comma-separated values, as `ream` writes them.
pub uninterp spec fn csv_text(entry: Entry) -> Result<Seq<char>, ReamError>;

/// The tree of an entry as indented JSON, as `ream` writes it.
pub uninterp spec fn ast_text(entry: Entry) -> Result<Seq<char>, ReamError>;

/// The `Debug` form of an error of `ream`.
pub uninterp spec fn debug_text(err: ReamError) -> Seq<char>;

/// Whether `entry` is what the parser makes of some ASCII document.
pub open spec fn parser_made(entry: Entry) -> bool {
    exists|text: Seq<char>|
        is_ascii_chars(text) && #[trigger] parsed(text) == Ok::<Option<Entry>, ReamError>(
            Some(entry),
        )
}

/// The characters of a rendering, or the error that came in its place.
pub open spec fn rendered_view(rendered: Result<String, ReamError>) -> Result<Seq<char>, ReamError> {
    match rendered {
        Ok(text) => Ok(text@),
        Err(err) => Err(err),
    }
}

/// Calls `ream::parser::Parser::new` on `text` and then `parse_entry` on the
/// new parser.
///
/// Claimed: the result is a function of the text alone. The parser reads
/// nothing but the bytes of `text` and keeps no state between calls.
///
/// The text has to be ASCII. The scanner counts columns in bytes but measures
/// a token by the length of a string into which it pushed every byte as a
/// `char`; past a token with enough bytes above `0x7f` the subtraction of the
/// two goes below zero.
#[verifier::external_body]
pub(crate) fn parse_entry(text: &str) -> (result: Result<Option<Entry>, ReamError>)
    requires
        is_ascii_chars(text@),
    ensures
        result == parsed(text@),
{
    ream::parser::Parser::new(text).parse_entry()
}

/// Calls `ream::ream::Entry::to_csv_str`.
///
/// Claimed: the result is a function of the entry alone.
///
/// The entry has to come from the parser. One that was put together by hand
/// can hold a value whose type is still unknown, and on such a value the
/// renderer stops at an `unreachable!`; the parser settles the type of every
/// value that it reads.
#[verifier::external_body]
pub(crate) fn to_csv_str(entry: Entry) -> (rendered: Result<String, ReamError>)
    requires
        parser_made(entry),
    ensures
        rendered_view(rendered) == csv_text(entry),
{
    entry.to_csv_str()
}

/// Calls `ream::ream::Entry::to_ast_str_pretty`.
///
/// Claimed: the result is a function of the entry alone.
#[verifier::external_body]
pub(crate) fn to_ast_str_pretty(mut entry: Entry) -> (rendered: Result<String, ReamError>)
    ensures
        rendered_view(rendered) == ast_text(entry),
{
    entry.to_ast_str_pretty()
}

/// Formats an error of `ream` with the `Debug` impl that `ream` derives for
/// `ReamError`.
///
/// Claimed: the text is a function of the error alone, and it is not empty: a
/// derived `Debug` writes at least the name of the variant.
#[verifier::external_body]
pub(crate) fn debug_string(err: &ReamError) -> (text: String)
    ensures
        text@ == debug_text(*err),
        text@.len() > 0,
{
    format!("{:?}", err)
}

} // verus!
