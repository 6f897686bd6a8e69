//! The update logic of a live playground for the REAM data language.
//!
//! A user edits a document and picks an output format; after every edit and
//! every change of format the document is parsed afresh and rendered. When a
//! document does not parse, the display keeps the last rendering that
//! succeeded and shows a diagnostic beside it.
//!
//! * [`target`]: the output formats.
//! * [`engine`]: the calls into the `ream` crate. Their contracts are stated,
//!   not proved; everything else in this crate is proved from them.
//! * [`parse`]: what one run of the parser came to.
//! * [`pipeline`]: parsing and rendering composed, without any state.
//! * [`model`]: the state of the playground and its transitions.
//! * [`laws`]: what holds across more than one call.

pub mod engine;
pub mod laws;
pub mod model;
pub mod parse;
pub mod pipeline;
pub mod target;

pub use model::{Model, ModelView, Msg, MsgView};
pub use parse::{ParseResult, ParseView};
pub use pipeline::{FaultView, OutcomeView, PipelineOutcome, RenderFault};
pub use target::Target;
