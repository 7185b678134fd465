//! The two directions in which a line crosses an image.
use vstd::prelude::*;

verus! {

/// Whether a line of an image is one of its rows or one of its columns.
#[derive(Clone, Copy, Debug, PartialEq, Eq, Structural)]
pub enum LineOrientation {
    Row,
    Column,
}

} // verus!
