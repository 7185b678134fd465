//! Bit containers, the threshold rule, the write-once cache cells and the
//! binarizer built on them.
pub mod binarizer_state;
pub mod bit_array;
pub mod bit_matrix;
pub mod fixed_threshold_binarizer;
pub mod line_orientation;
pub mod once;
pub mod row_major;
pub mod threshold;
