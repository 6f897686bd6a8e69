//! The output formats that a parsed entry can be rendered to.

use vstd::prelude::*;

verus! {

/// The format in which the parsed document is shown.
#[derive(Clone, Copy, Debug, PartialEq, Eq, Structural)]
pub enum Target {
    /// One row of comma-separated values for each leaf of the entry tree.
    CSV,
    /// The entry tree itself, as indented JSON.
    AST,
}

} // verus!
