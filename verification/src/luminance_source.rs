//! Where luminance samples come from: a rectangular grayscale image that can
//! be read by row, by column or as a whole.
use vstd::prelude::*;
use crate::common::row_major::lemma_row_major_index;

verus! {

/// An image of `width * height` samples in row-major order has exactly that
/// many samples.
pub open spec fn valid_image(luminances: Seq<u8>, width: nat, height: nat) -> bool {
    luminances.len() == width * height
}

/// The samples of row `y`, left to right.
pub open spec fn image_row(luminances: Seq<u8>, width: nat, y: int) -> Seq<u8> {
    Seq::new(width, |x: int| luminances[y * width + x])
}

/// The samples of column `x`, top to bottom.
pub open spec fn image_column(luminances: Seq<u8>, width: nat, height: nat, x: int) -> Seq<u8> {
    Seq::new(height, |y: int| luminances[y * width + x])
}

/// A rectangular image of luminance samples, 0 (darkest) to 255 (brightest).
///
/// The three spec functions say what the image is; the executable methods
/// read it. An image is taken as valid when `valid_image` holds of them.
pub trait LuminanceSource {
    /// The number of columns.
    spec fn spec_width(&self) -> nat;

    /// The number of rows.
    spec fn spec_height(&self) -> nat;

    /// All samples in row-major order.
    spec fn spec_matrix(&self) -> Seq<u8>;

    /// The number of columns.
    fn get_width(&self) -> (width: usize)
        ensures
            width == self.spec_width(),
    ;

    /// The number of rows.
    fn get_height(&self) -> (height: usize)
        ensures
            height == self.spec_height(),
    ;

    /// The samples of row `y`, or `None` when there is no such row.
    fn get_row(&self, y: usize) -> (row: Option<Vec<u8>>)
        requires
            valid_image(self.spec_matrix(), self.spec_width(), self.spec_height()),
        ensures
            y >= self.spec_height() ==> row is None,
            y < self.spec_height() ==> row is Some && row->0@ == image_row(
                self.spec_matrix(),
                self.spec_width(),
                y as int,
            ),
    ;

    /// The samples of column `x`.
    fn get_column(&self, x: usize) -> (column: Vec<u8>)
        requires
            valid_image(self.spec_matrix(), self.spec_width(), self.spec_height()),
            x < self.spec_width(),
        ensures
            column@ == image_column(
                self.spec_matrix(),
                self.spec_width(),
                self.spec_height(),
                x as int,
            ),
    ;

    /// All samples in row-major order.
    fn get_matrix(&self) -> (matrix: Vec<u8>)
        ensures
            matrix@ == self.spec_matrix(),
    ;
}

/// An image held in memory, one byte for each sample.
#[derive(Debug)]
pub struct Luma8LuminanceSource {
    luma: Vec<u8>,
    width: usize,
    height: usize,
}

impl Luma8LuminanceSource {
    /// The image of the given dimensions over `luma`, which holds its rows one
    /// after the other.
    pub fn new(luma: Vec<u8>, width: usize, height: usize) -> (source: Self)
        ensures
            source.spec_matrix() == luma@,
            source.spec_width() == width,
            source.spec_height() == height,
    {
        Luma8LuminanceSource { luma, width, height }
    }
}

impl LuminanceSource for Luma8LuminanceSource {
    closed spec fn spec_width(&self) -> nat {
        self.width as nat
    }

    closed spec fn spec_height(&self) -> nat {
        self.height as nat
    }

    closed spec fn spec_matrix(&self) -> Seq<u8> {
        self.luma@
    }

    fn get_width(&self) -> (width: usize) {
        self.width
    }

    fn get_height(&self) -> (height: usize) {
        self.height
    }

    fn get_row(&self, y: usize) -> (row: Option<Vec<u8>>) {
        if y >= self.height {
            return None;
        }
        let mut row: Vec<u8> = Vec::new();
        let mut x: usize = 0;
        while x < self.width
            invariant
                x <= self.width,
                y < self.height,
                self.luma@.len() == self.width * self.height,
                row@ == Seq::new(x as nat, |k: int| self.luma@[y * self.width + k]),
            decreases self.width - x,
        {
            proof {
                lemma_row_major_index(self.width as nat, self.height as nat, x as int, y as int);
                assert(self.luma.len() == self.width * self.height);
            }
            row.push(self.luma[y * self.width + x]);
            x += 1;
            assert(row@ =~= Seq::new(x as nat, |k: int| self.luma@[y * self.width + k]));
        }
        Some(row)
    }

    fn get_column(&self, x: usize) -> (column: Vec<u8>) {
        let mut column: Vec<u8> = Vec::new();
        let mut y: usize = 0;
        while y < self.height
            invariant
                y <= self.height,
                x < self.width,
                self.luma@.len() == self.width * self.height,
                column@ == Seq::new(y as nat, |k: int| self.luma@[k * self.width + x]),
            decreases self.height - y,
        {
            proof {
                lemma_row_major_index(self.width as nat, self.height as nat, x as int, y as int);
                assert(self.luma.len() == self.width * self.height);
            }
            column.push(self.luma[y * self.width + x]);
            y += 1;
            assert(column@ =~= Seq::new(y as nat, |k: int| self.luma@[k * self.width + x]));
        }
        column
    }

    fn get_matrix(&self) -> (matrix: Vec<u8>) {
        let matrix = self.luma.clone();
        assert(matrix@ =~= self.luma@);
        matrix
    }
}

} // verus!
