//! The state of the playground, and how an event changes it.

use crate::engine::parsed;
use crate::pipeline::{pipeline, rendering, run};
use crate::pipeline::{FaultView, OutcomeView, PipelineOutcome, RenderFault};
use crate::target::Target;
use vstd::prelude::*;
use vstd::utf8::is_ascii_chars;

verus! {

/// What the user did.
#[derive(Debug)]
pub enum Msg {
    /// The document was edited; this is all of its new text.
    UpdateInput(String),
    /// Another output format was picked.
    UpdateTarget(Target),
}

/// A [`Msg`] with its text as a sequence of characters.
pub enum MsgView {
    UpdateInput(Seq<char>),
    UpdateTarget(Target),
}

impl View for Msg {
    type V = MsgView;

    open spec fn view(&self) -> MsgView {
        match *self {
            Msg::UpdateInput(text) => MsgView::UpdateInput(text@),
            Msg::UpdateTarget(target) => MsgView::UpdateTarget(target),
        }
    }
}

/// Everything the playground remembers between two events.
#[derive(Debug, PartialEq, Eq)]
pub struct Model {
    /// The document as it stands in the editor.
    pub input: String,
    /// The last rendering that succeeded; empty until one has.
    pub cache: String,
    /// The text on display.
    pub output: String,
    /// The format that renderings are made in.
    pub target: Target,
    /// Why the document did not parse; empty if it did, or holds no entry.
    pub error: String,
}

/// A [`Model`] with its texts as sequences of characters.
pub struct ModelView {
    pub input: Seq<char>,
    pub cache: Seq<char>,
    pub output: Seq<char>,
    pub target: Target,
    pub error: Seq<char>,
}

impl View for Model {
    type V = ModelView;

    open spec fn view(&self) -> ModelView {
        ModelView {
            input: self.input@,
            cache: self.cache@,
            output: self.output@,
            target: self.target,
            error: self.error@,
        }
    }
}

impl ModelView {
    /// The state before the first event: the seed document in the editor,
    /// nothing rendered yet, CSV selected.
    pub open spec fn initial() -> ModelView {
        ModelView {
            input: "# Title"@,
            cache: Seq::empty(),
            output: Seq::empty(),
            target: Target::CSV,
            error: Seq::empty(),
        }
    }

    /// What holds of every state that the playground can be in: the document
    /// is ASCII, which is all that the parser takes, and the display shows the
    /// last rendering that succeeded.
    pub open spec fn wf(self) -> bool {
        &&& is_ascii_chars(self.input)
        &&& self.output == self.cache
    }

    /// This state with another document in the editor.
    pub open spec fn with_input(self, text: Seq<char>) -> ModelView {
        ModelView { input: text, ..self }
    }

    /// This state with another format selected.
    pub open spec fn with_target(self, target: Target) -> ModelView {
        ModelView { target, ..self }
    }

    /// This state with a fresh rendering on display and in the cache, and no
    /// diagnostic.
    pub open spec fn with_output(self, rendered: Seq<char>) -> ModelView {
        ModelView { cache: rendered, output: rendered, error: Seq::empty(), ..self }
    }

    /// This state after an outcome of the pipeline was applied to it. Only a
    /// success touches the cache; anything else puts the cache on display.
    pub open spec fn applied(self, outcome: OutcomeView) -> ModelView {
        match outcome {
            OutcomeView::Success(rendered) => self.with_output(rendered),
            OutcomeView::Unchanged => ModelView {
                output: self.cache,
                error: Seq::empty(),
                ..self
            },
            OutcomeView::Failure(diagnostic) => ModelView {
                output: self.cache,
                error: diagnostic,
                ..self
            },
        }
    }

    /// The fault, if there is one, of running the pipeline on the document
    /// and target of this state.
    pub open spec fn fault(self) -> Option<FaultView> {
        match pipeline(self.input, self.target) {
            Ok(_) => None,
            Err(fault) => Some(fault),
        }
    }

    /// This state after the pipeline ran on its document and target and the
    /// outcome was applied. A fault leaves the state as it is.
    pub open spec fn refreshed(self) -> ModelView {
        match pipeline(self.input, self.target) {
            Ok(outcome) => self.applied(outcome),
            Err(_) => self,
        }
    }

    /// This state with the field that `msg` names set, before the pipeline
    /// runs.
    pub open spec fn received(self, msg: MsgView) -> ModelView {
        match msg {
            MsgView::UpdateInput(text) => self.with_input(text),
            MsgView::UpdateTarget(target) => self.with_target(target),
        }
    }
}

/// The fault in the result of an event, if it ended in one.
pub open spec fn fault_view<T>(result: Result<T, RenderFault>) -> Option<FaultView> {
    match result {
        Ok(_) => None,
        Err(fault) => Some(fault@),
    }
}

impl Model {
    /// The state at startup.
    pub fn create() -> (model: Model)
        ensures
            model@ == ModelView::initial(),
            model@.wf(),
    {
        proof {
            reveal_strlit("# Title");
        }
        Model {
            input: "# Title".to_owned(),
            cache: String::new(),
            output: String::new(),
            target: Target::CSV,
            error: String::new(),
        }
    }

    /// Puts a fresh rendering on display and into the cache, and clears the
    /// diagnostic.
    pub fn update_output(&mut self, output: String)
        ensures
            final(self)@ == old(self)@.with_output(output@),
    {
        self.cache = output.clone();
        self.output = output;
        self.error = String::new();
    }

    /// Selects another format. Nothing is rendered anew.
    pub fn update_target(&mut self, target: Target)
        ensures
            final(self)@ == old(self)@.with_target(target),
    {
        self.target = target;
    }

    /// Applies an outcome of the pipeline.
    pub fn apply(&mut self, outcome: PipelineOutcome)
        ensures
            final(self)@ == old(self)@.applied(outcome@),
            final(self).output@ == final(self).cache@,
    {
        match outcome {
            PipelineOutcome::Success(rendered) => {
                self.update_output(rendered);
            },
            PipelineOutcome::Unchanged => {
                self.output = self.cache.clone();
                self.error = String::new();
            },
            PipelineOutcome::Failure(diagnostic) => {
                self.output = self.cache.clone();
                self.error = diagnostic;
            },
        }
    }

    /// Runs the pipeline on the document and target of this state and applies
    /// the outcome. On a fault nothing changes.
    fn refresh(&mut self) -> (result: Result<(), RenderFault>)
        requires
            old(self)@.wf(),
        ensures
            final(self)@ == old(self)@.refreshed(),
            fault_view(result) == old(self)@.fault(),
            final(self)@.wf(),
            result is Ok ==> (final(self).error@.len() > 0 <==> parsed(old(self).input@) is Err),
            result matches Err(fault) ==> fault.diagnostic@.len() > 0,
    {
        match run(self.input.as_str(), self.target, self.cache.as_str()) {
            Ok(outcome) => {
                self.apply(outcome);
                Ok(())
            },
            Err(fault) => Err(fault),
        }
    }

    /// The document was edited: takes the new text, parses and renders it.
    ///
    /// * If the text does not parse, the display stays as it was and the
    ///   diagnostic is shown.
    /// * If it parses to no entry, the display stays as it was and no
    ///   diagnostic is shown.
    /// * If it parses to an entry that the selected renderer accepts, the
    ///   rendering is on display and in the cache, and no diagnostic is shown.
    /// * If the renderer refuses the entry, the fault is returned and only the
    ///   document has changed.
    pub fn update(&mut self, text: String) -> (result: Result<(), RenderFault>)
        requires
            old(self)@.wf(),
            is_ascii_chars(text@),
        ensures
            final(self)@ == old(self)@.with_input(text@).refreshed(),
            fault_view(result) == old(self)@.with_input(text@).fault(),
            final(self)@.wf(),
            result is Ok ==> (final(self).error@.len() > 0 <==> parsed(text@) is Err),
            result matches Err(fault) ==> fault.diagnostic@.len() > 0,
            parsed(text@) is Err ==> {
                &&& result is Ok
                &&& final(self).output@ == old(self).output@
                &&& final(self).error@.len() > 0
            },
            parsed(text@) matches Ok(None) ==> {
                &&& result is Ok
                &&& final(self).output@ == old(self).output@
                &&& final(self).cache@ == old(self).cache@
                &&& final(self).output@ == final(self).cache@
                &&& final(self).error@ == Seq::<char>::empty()
            },
            parsed(text@) matches Ok(Some(entry)) ==> (rendering(old(self).target, entry) matches Ok(
                rendered,
            ) ==> {
                &&& result is Ok
                &&& final(self).output@ == rendered
                &&& final(self).cache@ == rendered
                &&& final(self).error@ == Seq::<char>::empty()
            }),
    {
        self.input = text;
        self.refresh()
    }

    /// Another format was picked: selects it, then parses and renders the
    /// document as it stands. No entry is kept between events, so the
    /// document is parsed again.
    ///
    /// If the document parses to an entry that the new renderer accepts, its
    /// rendering in the new format is on display.
    pub fn target_changed(&mut self, target: Target) -> (result: Result<(), RenderFault>)
        requires
            old(self)@.wf(),
        ensures
            final(self)@ == old(self)@.with_target(target).refreshed(),
            fault_view(result) == old(self)@.with_target(target).fault(),
            final(self)@.wf(),
            result is Ok ==> (final(self).error@.len() > 0 <==> parsed(old(self).input@) is Err),
            result matches Err(fault) ==> fault.diagnostic@.len() > 0,
            parsed(old(self).input@) matches Ok(Some(entry)) ==> (rendering(target, entry) matches Ok(
                rendered,
            ) ==> {
                &&& result is Ok
                &&& final(self).output@ == rendered
                &&& final(self).cache@ == rendered
                &&& final(self).error@ == Seq::<char>::empty()
            }),
    {
        self.update_target(target);
        self.refresh()
    }

    /// Whether [`Model::handle`] may be called with `msg` in this state: the
    /// state is one that the playground can be in, and a new document is
    /// ASCII.
    pub fn admits(&self, msg: &Msg) -> (ok: bool)
        ensures
            ok == (self@.wf() && (msg matches Msg::UpdateInput(text) ==> is_ascii_chars(text@))),
    {
        let text_ok = match msg {
            Msg::UpdateInput(text) => text.is_ascii(),
            Msg::UpdateTarget(_) => true,
        };
        text_ok && self.input.is_ascii() && self.output == self.cache
    }

    /// Handles one event to its end. The answer says whether the display has
    /// to be drawn again, and after an event it always has to, also where
    /// nothing that is shown has changed.
    pub fn handle(&mut self, msg: Msg) -> (result: Result<bool, RenderFault>)
        requires
            old(self)@.wf(),
            msg matches Msg::UpdateInput(text) ==> is_ascii_chars(text@),
        ensures
            final(self)@ == old(self)@.received(msg@).refreshed(),
            fault_view(result) == old(self)@.received(msg@).fault(),
            final(self)@.wf(),
            result matches Ok(redraw) ==> redraw,
            result matches Err(fault) ==> fault.diagnostic@.len() > 0,
    {
        let done = match msg {
            Msg::UpdateInput(text) => self.update(text),
            Msg::UpdateTarget(target) => self.target_changed(target),
        };
        match done {
            Ok(()) => Ok(true),
            Err(fault) => Err(fault),
        }
    }

    /// The playground takes no properties from outside, so a change of them
    /// never calls for a redraw.
    pub fn change(&mut self) -> (redraw: bool)
        ensures
            !redraw,
            *final(self) == *old(self),
    {
        false
    }
}

} // verus!
