//! The failures the resolution pipeline can report.

use vstd::prelude::*;

verus! {

/// Why no publication date could be determined.
#[derive(Clone, Copy, Debug, PartialEq, Eq, Structural)]
pub enum ExtractError {
    /// No extraction strategy produced a candidate string.
    ResolutionFailure,
    /// A candidate string was found but matched none of the known formats.
    ParseFailure,
}

} // verus!
