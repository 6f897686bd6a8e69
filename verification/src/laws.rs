//! What holds of the pipeline and of the state across more than one call.

use crate::engine::parsed;
use crate::model::ModelView;
use crate::pipeline::{pipeline, rendering, run_view, PipelineOutcome, RenderFault};
use crate::target::Target;
use ream::ream::{Entry, ReamError};
use vstd::prelude::*;

verus! {

/// The pipeline is deterministic: two runs on the same document and the same
/// target end in the same outcome, or in the same fault, whatever cache each
/// run was handed and whatever happened between them.
pub proof fn lemma_run_deterministic(
    text: Seq<char>,
    target: Target,
    first: Result<PipelineOutcome, RenderFault>,
    second: Result<PipelineOutcome, RenderFault>,
)
    requires
        run_view(first) == pipeline(text, target),
        run_view(second) == pipeline(text, target),
    ensures
        run_view(first) == run_view(second),
{
}

/// Switching the target renders the document that is already there. Once a
/// document that parses to an entry has been taken, picking a target whose
/// renderer accepts that entry puts the entry on display as that renderer
/// writes it, with no new text from the user and whatever was shown before.
pub proof fn lemma_target_switch_rerenders(
    before: ModelView,
    text: Seq<char>,
    entry: Entry,
    target: Target,
    rendered: Seq<char>,
)
    requires
        parsed(text) == Ok::<Option<Entry>, ReamError>(Some(entry)),
        rendering(target, entry) == Ok::<Seq<char>, ReamError>(rendered),
    ensures
        before.with_input(text).refreshed().with_target(target).refreshed() == (ModelView {
            input: text,
            cache: rendered,
            output: rendered,
            target,
            error: Seq::empty(),
        }),
        before.with_input(text).refreshed().with_target(target).fault() is None,
{
}

} // verus!
