//! How command results are rendered for the caller.

use vstd::prelude::*;

verus! {

/// Output mode for command results.
#[derive(Debug, Clone, Copy, PartialEq, Eq, Structural)]
pub enum OutputMode {
    /// Compact JSON, for programs.
    Json,
    /// Labelled, human-readable text.
    Pretty,
}

} // verus!
