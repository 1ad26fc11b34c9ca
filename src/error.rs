use vstd::prelude::*;

verus! {

/// Why a band color or a band sequence was rejected.
#[derive(Debug, Clone, PartialEq, Eq)]
pub enum ColorError {
    /// The text (as given, before trimming) names no known color.
    UnknownColor(String),
    /// Fewer than three bands were supplied; carries how many were.
    InsufficientBands(usize),
}

} // verus!
