//! A binarizer with one fixed threshold for the whole image.
//!
//! Pixels whose luminance lies below the threshold are black; pixels at or
//! above it are white. Rows, columns and the whole matrix are computed when
//! they are first asked for and kept in write-once cells.
use vstd::prelude::*;
use std::borrow::Cow;
use once_cell::sync::OnceCell;
use crate::common::binarizer_state::BinarizerState;
use crate::common::bit_array::BitArray;
use crate::common::bit_matrix::{BitGrid, BitMatrix};
use crate::common::line_orientation::LineOrientation;
use crate::common::once::{
    line_cell_get_or_try_init,
    line_cell_new,
    line_cell_value,
    matrix_cell_get,
    matrix_cell_get_or_try_init,
    matrix_cell_new,
    matrix_cell_value,
};
use crate::common::threshold::{binarize_line, binarize_matrix};
use crate::exceptions::Exceptions;
use crate::luminance_source::{valid_image, LuminanceSource};

verus! {

/// The threshold of a binarizer that was given none: the middle of the range
/// of luminances.
pub const DEFAULT_THRESHOLD: u8 = 128;

/// A binarizer over the image `source` with a threshold that stays the same
/// for as long as the binarizer lives.
pub struct FixedThresholdBinarizer<LS: LuminanceSource> {
    source: LS,
    threshold: u8,
    width: usize,
    height: usize,
    black_matrix: OnceCell<BitMatrix>,
    black_row_cache: Vec<OnceCell<BitArray>>,
    black_column_cache: Vec<OnceCell<BitArray>>,
}

/// What each cell of a cache tier holds.
spec fn held_lines(cells: Seq<OnceCell<BitArray>>) -> Seq<Option<Seq<bool>>> {
    Seq::new(cells.len(), |i: int| line_cell_value(cells[i]))
}

/// When cell `i` of a tier changes, what the tier holds changes at `i`
/// alone; when the cell holds what it held before, nothing changes.
proof fn lemma_held_lines_update(cells: Seq<OnceCell<BitArray>>, i: int)
    requires
        0 <= i < cells.len(),
    ensures
        forall|cell: OnceCell<BitArray>|
            held_lines(#[trigger] cells.update(i, cell)) == held_lines(cells).update(
                i,
                line_cell_value(cell),
            ),
        forall|cell: OnceCell<BitArray>|
            line_cell_value(cell) == held_lines(cells)[i] ==> held_lines(
                #[trigger] cells.update(i, cell),
            ) == held_lines(cells),
{
    assert forall|cell: OnceCell<BitArray>|
        held_lines(#[trigger] cells.update(i, cell)) == held_lines(cells).update(
            i,
            line_cell_value(cell),
        ) by {
        assert(held_lines(cells.update(i, cell)) =~= held_lines(cells).update(
            i,
            line_cell_value(cell),
        ));
    }
    assert forall|cell: OnceCell<BitArray>|
        line_cell_value(cell) == held_lines(cells)[i] implies held_lines(
            #[trigger] cells.update(i, cell),
        ) == held_lines(cells) by {
        assert(held_lines(cells.update(i, cell)) =~= held_lines(cells));
    }
}

/// The bits of a line that a request returned, or the failure it reported.
pub open spec fn line_bits(res: Result<Cow<'_, BitArray>, Exceptions>) -> Result<
    Seq<bool>,
    Exceptions,
> {
    match res {
        Ok(line) => Ok(line@),
        Err(e) => Err(e),
    }
}

/// The bits of a line that was computed, or the failure to compute it.
spec fn owned_line_bits(res: Result<BitArray, Exceptions>) -> Result<
    Seq<bool>,
    Exceptions,
> {
    match res {
        Ok(line) => Ok(line@),
        Err(e) => Err(e),
    }
}

/// The grid of a matrix that was computed, or the failure to compute it.
spec fn owned_matrix_grid(res: Result<BitMatrix, Exceptions>) -> Result<
    BitGrid,
    Exceptions,
> {
    match res {
        Ok(matrix) => Ok(matrix@),
        Err(e) => Err(e),
    }
}

/// The grid of a matrix that a request returned, or the failure it reported.
pub open spec fn matrix_grid(res: Result<&BitMatrix, Exceptions>) -> Result<BitGrid, Exceptions> {
    match res {
        Ok(matrix) => Ok(matrix@),
        Err(e) => Err(e),
    }
}

impl<LS: LuminanceSource> View for FixedThresholdBinarizer<LS> {
    type V = BinarizerState;

    closed spec fn view(&self) -> BinarizerState {
        BinarizerState {
            luminances: self.source.spec_matrix(),
            width: self.width as nat,
            height: self.height as nat,
            threshold: self.threshold,
            rows: held_lines(self.black_row_cache@),
            columns: held_lines(self.black_column_cache@),
            matrix: matrix_cell_value(self.black_matrix),
        }
    }
}

impl<LS: LuminanceSource> FixedThresholdBinarizer<LS> {
    /// The image that this binarizer reads.
    pub closed spec fn spec_source(&self) -> LS {
        self.source
    }

    /// The dimensions that the binarizer recorded are those of its image.
    pub closed spec fn dimensions_recorded(&self) -> bool {
        &&& self.width == self.source.spec_width()
        &&& self.height == self.source.spec_height()
    }

    /// The invariant of a binarizer: it has recorded the dimensions of its
    /// image, and its state is valid.
    pub open spec fn wf(&self) -> bool {
        &&& self.dimensions_recorded()
        &&& self@.wf()
    }

    /// A binarizer over `source` with the default threshold.
    pub fn new(source: LS) -> (binarizer: Self)
        requires
            valid_image(source.spec_matrix(), source.spec_width(), source.spec_height()),
        ensures
            binarizer.wf(),
            binarizer.spec_source() == source,
            binarizer@ == BinarizerState::fresh(
                source.spec_matrix(),
                source.spec_width(),
                source.spec_height(),
                DEFAULT_THRESHOLD,
            ),
    {
        Self::with_threshold(source, DEFAULT_THRESHOLD)
    }

    /// A binarizer over `source` under which the pixels below `threshold`
    /// are black. All its cache cells are empty.
    pub fn with_threshold(source: LS, threshold: u8) -> (binarizer: Self)
        requires
            valid_image(source.spec_matrix(), source.spec_width(), source.spec_height()),
        ensures
            binarizer.wf(),
            binarizer.spec_source() == source,
            binarizer@ == BinarizerState::fresh(
                source.spec_matrix(),
                source.spec_width(),
                source.spec_height(),
                threshold,
            ),
    {
        let width = source.get_width();
        let height = source.get_height();
        let black_row_cache = Self::empty_cells(height);
        let black_column_cache = Self::empty_cells(width);
        let binarizer = FixedThresholdBinarizer {
            source,
            threshold,
            width,
            height,
            black_matrix: matrix_cell_new(),
            black_row_cache,
            black_column_cache,
        };
        assert(binarizer@.rows =~= Seq::new(height as nat, |y: int| None));
        assert(binarizer@.columns =~= Seq::new(width as nat, |x: int| None));
        binarizer
    }

    /// `count` empty line cells.
    fn empty_cells(count: usize) -> (cells: Vec<OnceCell<BitArray>>)
        ensures
            cells@.len() == count,
            forall|i: int| 0 <= i < count ==> line_cell_value(#[trigger] cells@[i]) is None,
    {
        let mut cells: Vec<OnceCell<BitArray>> = Vec::new();
        let mut i: usize = 0;
        while i < count
            invariant
                i <= count,
                cells@.len() == i,
                forall|k: int| 0 <= k < i ==> line_cell_value(#[trigger] cells@[k]) is None,
            decreases count - i,
        {
            cells.push(line_cell_new());
            i += 1;
        }
        cells
    }

    /// The threshold below which a pixel is black.
    pub fn get_threshold(&self) -> (threshold: u8)
        ensures
            threshold == self@.threshold,
    {
        self.threshold
    }

    /// The image that this binarizer reads.
    pub fn get_luminance_source(&self) -> (source: &LS)
        ensures
            *source == self.spec_source(),
    {
        &self.source
    }

    /// The width of the image.
    pub fn get_width(&self) -> (width: usize)
        ensures
            width == self@.width,
    {
        self.width
    }

    /// The height of the image.
    pub fn get_height(&self) -> (height: usize)
        ensures
            height == self@.height,
    {
        self.height
    }

    /// A binarizer over another image with the threshold of this one. It
    /// shares nothing with this one: all its cache cells are empty.
    pub fn create_binarizer(&self, source: LS) -> (binarizer: Self)
        requires
            valid_image(source.spec_matrix(), source.spec_width(), source.spec_height()),
        ensures
            binarizer.wf(),
            binarizer.spec_source() == source,
            binarizer@ == BinarizerState::fresh(
                source.spec_matrix(),
                source.spec_width(),
                source.spec_height(),
                self@.threshold,
            ),
    {
        Self::with_threshold(source, self.threshold)
    }

    /// Row `y` of the image in black and white. The first request for a row
    /// reads it from the image and settles its cell; later requests return
    /// what the cell holds. A row outside the image is reported as such.
    pub fn get_black_row(&mut self, y: usize) -> (res: Result<Cow<'_, BitArray>, Exceptions>)
        requires
            old(self).wf(),
        ensures
            final(self)@ == old(self)@.after_row(y as int),
            final(self).spec_source() == old(self).spec_source(),
            final(self).wf(),
            line_bits(res) == old(self)@.row_result(y as int),
    {
        if y >= self.height {
            return Err(Exceptions::IndexOutOfBounds);
        }
        let ghost before = self@;
        let source = &self.source;
        let width = self.width;
        let threshold = self.threshold;
        let init = || -> (computed: Result<BitArray, Exceptions>)
            ensures
                owned_line_bits(computed) == before.row_result(y as int),
            {
                let luminances = match source.get_row(y) {
                    Some(luminances) => luminances,
                    None => {
                        return Err(Exceptions::IndexOutOfBounds);
                    },
                };
                Ok(binarize_line(&luminances, width, threshold))
            };
        proof {
            lemma_held_lines_update(self.black_row_cache@, y as int);
        }
        let row = line_cell_get_or_try_init(&mut self.black_row_cache[y], init)?;
        Ok(Cow::Borrowed(row))
    }

    /// Line `l` of the image in black and white: row `l` or column `l`, as
    /// `orientation` says. A row is got as `get_black_row` gets it. The first
    /// request for a column reads it from the image and settles its cell;
    /// later requests return what the cell holds. The cells of rows and of
    /// columns are apart: neither request touches a cell of the other tier.
    pub fn get_black_line(&mut self, l: usize, orientation: LineOrientation) -> (res: Result<
        Cow<'_, BitArray>,
        Exceptions,
    >)
        requires
            old(self).wf(),
        ensures
            final(self)@ == old(self)@.after_line(l as int, orientation),
            final(self).spec_source() == old(self).spec_source(),
            final(self).wf(),
            line_bits(res) == old(self)@.line_result(l as int, orientation),
    {
        if orientation == LineOrientation::Row {
            return self.get_black_row(l);
        }
        if l >= self.width {
            return Err(Exceptions::IndexOutOfBounds);
        }
        let ghost before = self@;
        let source = &self.source;
        let height = self.height;
        let threshold = self.threshold;
        let init = || -> (computed: Result<BitArray, Exceptions>)
            ensures
                owned_line_bits(computed) == before.column_result(l as int),
            {
                let luminances = source.get_column(l);
                Ok(binarize_line(&luminances, height, threshold))
            };
        proof {
            lemma_held_lines_update(self.black_column_cache@, l as int);
        }
        let column = line_cell_get_or_try_init(&mut self.black_column_cache[l], init)?;
        Ok(Cow::Borrowed(column))
    }

    /// The whole image in black and white. The first request reads the image
    /// once and settles the matrix cell; later requests return what the cell
    /// holds. No cell of a row or of a column is touched. An image without
    /// pixels has no matrix, and the request fails.
    pub fn get_black_matrix(&mut self) -> (res: Result<&BitMatrix, Exceptions>)
        requires
            old(self).wf(),
        ensures
            final(self)@ == old(self)@.after_matrix(),
            final(self).spec_source() == old(self).spec_source(),
            final(self).wf(),
            matrix_grid(res) == old(self)@.matrix_result(),
            res matches Ok(matrix) ==> matrix.wf(),
    {
        let ghost before = self@;
        let source = &self.source;
        let width = self.width;
        let height = self.height;
        let threshold = self.threshold;
        let init = || -> (computed: Result<BitMatrix, Exceptions>)
            ensures
                owned_matrix_grid(computed) == before.matrix_result(),
            {
                let luminances = source.get_matrix();
                binarize_matrix(&luminances, width, height, threshold)
            };
        let matrix = matrix_cell_get_or_try_init(&mut self.black_matrix, init)?;
        Ok(matrix)
    }

    /// Row `y` by way of the matrix. Where the matrix cell is settled, the
    /// row is cut out of the cached matrix and nothing else happens: the
    /// image is not read and no cell changes. Where it is empty, the row is
    /// got as `get_black_row` gets it, which may settle the cell of the row.
    /// The matrix cell is never settled here. A row cut out of the matrix is
    /// a bit array of its own; a row got the other way is lent from its cell.
    pub fn get_black_row_from_matrix(&mut self, y: usize) -> (res: Result<
        Cow<'_, BitArray>,
        Exceptions,
    >)
        requires
            old(self).wf(),
        ensures
            final(self)@ == old(self)@.after_row_from_matrix(y as int),
            final(self).spec_source() == old(self).spec_source(),
            final(self).wf(),
            line_bits(res) == old(self)@.row_from_matrix_result(y as int),
    {
        if let Some(matrix) = matrix_cell_get(&self.black_matrix) {
            Ok(Cow::Owned(row_of_cached_matrix(matrix, y)?))
        } else {
            self.get_black_row(y)
        }
    }
}

/// Row `y` of a matrix that is already there, as a bit array of its own, or
/// the failure to report when the matrix has no such row. Nothing but the
/// matrix is read.
pub fn row_of_cached_matrix(matrix: &BitMatrix, y: usize) -> (res: Result<BitArray, Exceptions>)
    requires
        matrix.wf(),
    ensures
        y < matrix@.height ==> (res matches Ok(row) && row@ == matrix@.row(y as int)),
        y >= matrix@.height ==> (res matches Err(e) && e == Exceptions::IndexOutOfBounds),
{
    if y < matrix.get_height() {
        Ok(matrix.get_row(y))
    } else {
        Err(Exceptions::IndexOutOfBounds)
    }
}

} // verus!
