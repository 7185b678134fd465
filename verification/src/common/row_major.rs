//! Row-major order: the pixel in column `x` of row `y` of an image that is
//! `width` pixels wide stands at index `y * width + x`.
use vstd::prelude::*;

verus! {

/// A position inside an image of `width * height` pixels has its row-major
/// index inside the image, and so has the whole of its row.
pub proof fn lemma_row_major_index(width: nat, height: nat, x: int, y: int)
    requires
        0 <= x < width,
        0 <= y < height,
    ensures
        0 <= y * width,
        0 <= y * width + x < width * height,
        y * width + width <= width * height,
{
    assert(y * width + width == (y + 1) * width) by (nonlinear_arith);
    assert((y + 1) * width <= height * width) by (nonlinear_arith)
        requires
            y + 1 <= height,
    ;
    assert(height * width == width * height) by (nonlinear_arith);
    assert(0 <= y * width) by (nonlinear_arith)
        requires
            0 <= y,
    ;
}

} // verus!
