//! Fixed-threshold binarization of grayscale images.
//!
//! A [`FixedThresholdBinarizer`] turns the luminance samples of a
//! [`LuminanceSource`] into black and white under one threshold, and hands
//! the result out by row, by line (row or column) or as a whole matrix. Each
//! of these is computed when it is first asked for and kept in a write-once
//! cell. A [`WitnessData`] keeps the grayscale image of a finished pass
//! together with its bit matrix.
//!
//! Every function is verified against its contract. The contracts of the
//! binarizer are stated over `common::binarizer_state`, which also holds the
//! laws that relate its operations; `common::once` holds what is taken on
//! trust of the cell type.
pub mod common;
pub mod exceptions;
pub mod luminance_source;
pub mod witness_data;

pub use common::bit_array::BitArray;
pub use common::bit_matrix::BitMatrix;
pub use common::fixed_threshold_binarizer::FixedThresholdBinarizer;
pub use common::line_orientation::LineOrientation;
pub use exceptions::Exceptions;
pub use luminance_source::{Luma8LuminanceSource, LuminanceSource};
pub use witness_data::{WitnessData, WitnessRecord};
