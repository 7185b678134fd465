//! The failures that the library reports to its callers.
use vstd::prelude::*;

verus! {

/// A recoverable failure.
#[derive(Clone, Copy, Debug, PartialEq, Eq, Structural)]
pub enum Exceptions {
    /// A row or column index lies outside the image.
    IndexOutOfBounds,
    /// An argument cannot describe a bit matrix.
    IllegalArgument,
}

} // verus!
