//! The threshold rule: a sample is black exactly when it lies below the
//! threshold. The same rule serves rows, columns and whole images.
use vstd::prelude::*;
use crate::common::bit_array::BitArray;
use crate::common::bit_matrix::{BitGrid, BitMatrix};
use crate::common::row_major::lemma_row_major_index;
use crate::exceptions::Exceptions;

verus! {

/// The bits of a line of `len` pixels whose samples are `luminances`: a pixel
/// is black when its sample lies below `threshold`, and white when the sample
/// is at or above it or when the line has no sample for it.
pub open spec fn black_line(luminances: Seq<u8>, len: nat, threshold: u8) -> Seq<bool> {
    Seq::new(len, |i: int| i < luminances.len() && luminances[i] < threshold)
}

/// The bit grid of an image of the given dimensions whose samples, in
/// row-major order, are `luminances`.
pub open spec fn black_grid(luminances: Seq<u8>, width: nat, height: nat, threshold: u8) -> BitGrid {
    BitGrid { width, height, bits: black_line(luminances, width * height, threshold) }
}

/// Whether a sample is black under `threshold`. The threshold itself is white.
pub fn is_black(luminance: u8, threshold: u8) -> (black: bool)
    ensures
        black <==> luminance < threshold,
{
    luminance < threshold
}

/// Applies the threshold rule to one line of samples.
pub fn binarize_line(luminances: &Vec<u8>, len: usize, threshold: u8) -> (line: BitArray)
    ensures
        line@ == black_line(luminances@, len as nat, threshold),
{
    let mut line = BitArray::with_size(len);
    let n: usize = if luminances.len() < len { luminances.len() } else { len };
    let mut i: usize = 0;
    while i < n
        invariant
            i <= n,
            n <= len,
            n <= luminances@.len(),
            n == len || n == luminances@.len(),
            line@.len() == len,
            forall|k: int| 0 <= k < i ==> line@[k] == (luminances@[k] < threshold),
            forall|k: int| i <= k < len ==> line@[k] == false,
        decreases n - i,
    {
        if is_black(luminances[i], threshold) {
            line.set(i);
        }
        i += 1;
    }
    assert(line@ =~= black_line(luminances@, len as nat, threshold));
    line
}

/// Applies the threshold rule to a whole image, whose samples are the first
/// `width * height` of `luminances`. An image without pixels has no bit
/// matrix.
pub fn binarize_matrix(luminances: &Vec<u8>, width: usize, height: usize, threshold: u8) -> (res:
    Result<BitMatrix, Exceptions>)
    requires
        width * height <= luminances@.len(),
    ensures
        res is Ok <==> width > 0 && height > 0,
        res matches Ok(matrix) ==> matrix.wf() && matrix@ == black_grid(
            luminances@,
            width as nat,
            height as nat,
            threshold,
        ),
        res matches Err(e) ==> e == Exceptions::IllegalArgument,
{
    assert(width * height <= luminances.len());
    let mut matrix = BitMatrix::new(width, height)?;
    let mut y: usize = 0;
    while y < height
        invariant
            y <= height,
            width > 0,
            width * height <= luminances@.len(),
            matrix.wf(),
            matrix@.width == width,
            matrix@.height == height,
            forall|i: int| 0 <= i < y * width ==> matrix@.bits[i] == (luminances@[i] < threshold),
            forall|i: int| y * width <= i < width * height ==> matrix@.bits[i] == false,
        decreases height - y,
    {
        let mut x: usize = 0;
        while x < width
            invariant
                x <= width,
                y < height,
                width * height <= luminances@.len(),
                matrix.wf(),
                matrix@.width == width,
                matrix@.height == height,
                forall|i: int| 0 <= i < y * width + x ==> matrix@.bits[i] == (luminances@[i] < threshold),
                forall|i: int| y * width + x <= i < width * height ==> matrix@.bits[i] == false,
            decreases width - x,
        {
            proof {
                lemma_row_major_index(width as nat, height as nat, x as int, y as int);
                assert(width * height <= luminances.len());
            }
            let index: usize = y * width + x;
            if is_black(luminances[index], threshold) {
                matrix.set(x, y);
            }
            x += 1;
        }
        y += 1;
        assert(y * width == (y - 1) * width + width) by (nonlinear_arith);
    }
    assert(y * width == width * height) by (nonlinear_arith)
        requires
            y == height,
    ;
    assert(matrix@.bits =~= black_line(luminances@, (width * height) as nat, threshold));
    Ok(matrix)
}

} // verus!
