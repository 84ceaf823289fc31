//! The error taxonomy of the pipeline.

use vstd::prelude::*;

verus! {

/// A terminal failure of a generation run.
#[derive(Clone, Copy, Debug, PartialEq, Eq, Structural)]
pub enum Error {
    /// An invalid pattern in one of the six filter lists; raised before any
    /// target is processed.
    Config,
    /// The workspace or its manifest could not be resolved.
    Workspace,
    /// A source file could not be parsed. Within a run this is non-fatal:
    /// the affected target is skipped and the others proceed.
    Parse,
    /// The generated text could not be written out.
    Io,
}

} // verus!
