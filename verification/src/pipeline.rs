//! Parsing and rendering composed: from a document and a target to what the
//! display should do next. Nothing here holds or changes any state.

use crate::engine::{ast_text, csv_text, debug_string, debug_text, parsed, parser_made};
use crate::engine::rendered_view;
use crate::engine::{to_ast_str_pretty, to_csv_str};
use crate::parse::{classified, ParseResult, ParseView};
use crate::target::Target;
use ream::ream::{Entry, ReamError};
use vstd::prelude::*;
use vstd::utf8::is_ascii_chars;

verus! {

/// What one run of the pipeline asks of the display.
#[derive(Debug, PartialEq, Eq)]
pub enum PipelineOutcome {
    /// The document parsed and was rendered: show this text.
    Success(String),
    /// The document holds no entry: keep what was shown, with no diagnostic.
    Unchanged,
    /// The document did not parse: keep what was shown, beside this
    /// diagnostic.
    Failure(String),
}

/// A [`PipelineOutcome`] with its texts as sequences of characters.
pub enum OutcomeView {
    Success(Seq<char>),
    Unchanged,
    Failure(Seq<char>),
}

impl View for PipelineOutcome {
    type V = OutcomeView;

    open spec fn view(&self) -> OutcomeView {
        match *self {
            PipelineOutcome::Success(rendered) => OutcomeView::Success(rendered@),
            PipelineOutcome::Unchanged => OutcomeView::Unchanged,
            PipelineOutcome::Failure(diagnostic) => OutcomeView::Failure(diagnostic@),
        }
    }
}

/// A renderer refused an entry that the parser had accepted.
///
/// This is no fault of the document: parser and renderer disagree about what
/// an entry is. It is therefore kept apart from [`PipelineOutcome::Failure`]
/// and handed to the caller as an error, which must not be shown as an
/// ordinary diagnostic, nor answered by showing the old rendering as if
/// nothing had happened.
#[derive(Debug, PartialEq, Eq)]
pub struct RenderFault {
    /// The format that was asked for.
    pub target: Target,
    /// The `Debug` form of the renderer's error.
    pub diagnostic: String,
}

/// A [`RenderFault`] with its diagnostic as a sequence of characters.
pub struct FaultView {
    pub target: Target,
    pub diagnostic: Seq<char>,
}

impl View for RenderFault {
    type V = FaultView;

    open spec fn view(&self) -> FaultView {
        FaultView { target: self.target, diagnostic: self.diagnostic@ }
    }
}

/// The view of what [`run`] returns.
pub open spec fn run_view(result: Result<PipelineOutcome, RenderFault>) -> Result<
    OutcomeView,
    FaultView,
> {
    match result {
        Ok(outcome) => Ok(outcome@),
        Err(fault) => Err(fault@),
    }
}

/// Whether the renderer that `target` selects accepts `entry`. The CSV renderer
/// accepts what the parser made; the AST renderer accepts any entry.
pub open spec fn accepts(target: Target, entry: Entry) -> bool {
    target == Target::CSV ==> parser_made(entry)
}

/// What the renderer that `target` selects makes of `entry`.
pub open spec fn rendering(target: Target, entry: Entry) -> Result<Seq<char>, ReamError> {
    match target {
        Target::CSV => csv_text(entry),
        Target::AST => ast_text(entry),
    }
}

/// What a finished rendering means for the display.
pub open spec fn concluded(target: Target, rendered: Result<Seq<char>, ReamError>) -> Result<
    OutcomeView,
    FaultView,
> {
    match rendered {
        Ok(text) => Ok(OutcomeView::Success(text)),
        Err(err) => Err(FaultView { target, diagnostic: debug_text(err) }),
    }
}

/// What a classified parse means for the display, once its entry, if it has
/// one, went through the renderer that `target` selects.
pub open spec fn outcome_of(parse: ParseView, target: Target) -> Result<OutcomeView, FaultView> {
    match parse {
        ParseView::Parsed(entry) => concluded(target, rendering(target, entry)),
        ParseView::NoEntry => Ok(OutcomeView::Unchanged),
        ParseView::ParseFailed(diagnostic) => Ok(OutcomeView::Failure(diagnostic)),
    }
}

/// What the display should do for the document `text` under `target`.
pub open spec fn pipeline(text: Seq<char>, target: Target) -> Result<OutcomeView, FaultView> {
    outcome_of(classified(parsed(text)), target)
}

/// Renders `entry` with the renderer that `target` selects. The selection is
/// total: each target has its renderer, and there is no fallback.
pub fn render(target: Target, entry: Entry) -> (rendered: Result<String, ReamError>)
    requires
        accepts(target, entry),
    ensures
        rendered_view(rendered) == rendering(target, entry),
{
    match target {
        Target::CSV => to_csv_str(entry),
        Target::AST => to_ast_str_pretty(entry),
    }
}

/// Turns a finished rendering into an outcome, or into a fault if the
/// renderer failed.
pub fn conclude(target: Target, rendered: Result<String, ReamError>) -> (result: Result<
    PipelineOutcome,
    RenderFault,
>)
    ensures
        run_view(result) == concluded(target, rendered_view(rendered)),
        result matches Err(fault) ==> fault.diagnostic@.len() > 0,
{
    match rendered {
        Ok(text) => Ok(PipelineOutcome::Success(text)),
        Err(err) => Err(RenderFault { target, diagnostic: debug_string(&err) }),
    }
}

/// Finishes a run from a classified parse: renders the entry if there is
/// one, and otherwise passes on that there is none, or why there is none.
pub fn render_parsed(parse: ParseResult, target: Target) -> (result: Result<
    PipelineOutcome,
    RenderFault,
>)
    requires
        parse matches ParseResult::Parsed(entry) ==> accepts(target, entry),
    ensures
        run_view(result) == outcome_of(parse@, target),
        result matches Err(fault) ==> fault.diagnostic@.len() > 0,
{
    match parse {
        ParseResult::Parsed(entry) => conclude(target, render(target, entry)),
        ParseResult::NoEntry => Ok(PipelineOutcome::Unchanged),
        ParseResult::ParseFailed(diagnostic) => Ok(PipelineOutcome::Failure(diagnostic)),
    }
}

/// Parses `text` and renders the entry for `target`.
///
/// `_previous_cache` is what the caller will go on showing if the outcome is
/// not a success. It is taken to make that plain at the call; the outcome
/// does not depend on it.
pub fn run(text: &str, target: Target, _previous_cache: &str) -> (result: Result<
    PipelineOutcome,
    RenderFault,
>)
    requires
        is_ascii_chars(text@),
    ensures
        run_view(result) == pipeline(text@, target),
        result matches Err(fault) ==> fault.diagnostic@.len() > 0,
        result matches Ok(PipelineOutcome::Failure(diagnostic)) ==> diagnostic@.len() > 0,
{
    render_parsed(crate::parse::run(text), target)
}

} // verus!
