use vstd::prelude::*;

verus! {

/// The failures that the library reports.
#[derive(Debug, Clone, Copy, PartialEq, Eq, Structural)]
pub enum DataError {
    /// The input bytes are not valid UTF-8 text.
    InvalidEncoding,
}

} // verus!
