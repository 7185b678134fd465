//! The state of a binarizer as a mathematical value: the image, the threshold
//! and what each cache cell holds. Each operation of the binarizer is a
//! function from the state before it to its result and the state after it,
//! and the laws that relate the operations are proved of these functions.
use vstd::prelude::*;
use crate::common::bit_matrix::BitGrid;
use crate::common::line_orientation::LineOrientation;
use crate::common::threshold::{black_grid, black_line};
use crate::exceptions::Exceptions;
use crate::common::row_major::lemma_row_major_index;
use crate::luminance_source::{image_column, image_row, valid_image};

verus! {

/// The image and threshold of a binarizer together with its three cache
/// tiers. An empty cell is `None`; a settled cell holds its bits.
pub struct BinarizerState {
    /// The samples of the image in row-major order.
    pub luminances: Seq<u8>,
    pub width: nat,
    pub height: nat,
    pub threshold: u8,
    /// One cell for each row.
    pub rows: Seq<Option<Seq<bool>>>,
    /// One cell for each column.
    pub columns: Seq<Option<Seq<bool>>>,
    /// The cell of the whole matrix.
    pub matrix: Option<BitGrid>,
}

impl BinarizerState {
    /// The state of a binarizer that has not been asked for anything yet.
    pub open spec fn fresh(luminances: Seq<u8>, width: nat, height: nat, threshold: u8) -> Self {
        BinarizerState {
            luminances,
            width,
            height,
            threshold,
            rows: Seq::new(height, |y: int| None),
            columns: Seq::new(width, |x: int| None),
            matrix: None,
        }
    }

    /// Row `y` of the image under the threshold rule.
    pub open spec fn black_row(self, y: int) -> Seq<bool> {
        black_line(image_row(self.luminances, self.width, y), self.width, self.threshold)
    }

    /// Column `x` of the image under the threshold rule.
    pub open spec fn black_column(self, x: int) -> Seq<bool> {
        black_line(
            image_column(self.luminances, self.width, self.height, x),
            self.height,
            self.threshold,
        )
    }

    /// The whole image under the threshold rule.
    pub open spec fn black_matrix(self) -> BitGrid {
        black_grid(self.luminances, self.width, self.height, self.threshold)
    }

    /// The image is valid, each tier has one cell for each of its lines, and
    /// every settled cell holds what the threshold rule gives for its line.
    pub open spec fn wf(self) -> bool {
        &&& valid_image(self.luminances, self.width, self.height)
        &&& self.rows.len() == self.height
        &&& self.columns.len() == self.width
        &&& forall|y: int|
            0 <= y < self.height ==> (#[trigger] self.rows[y] matches Some(row) ==> row
                == self.black_row(y))
        &&& forall|x: int|
            0 <= x < self.width ==> (#[trigger] self.columns[x] matches Some(column) ==> column
                == self.black_column(x))
        &&& self.matrix matches Some(matrix) ==> self.width > 0 && self.height > 0 && matrix
            == self.black_matrix()
    }

    /// Every cell that is settled in this state holds the same in `later`,
    /// which is a state over the same image with the same threshold.
    pub open spec fn kept_by(self, later: Self) -> bool {
        &&& self.same_image(later)
        &&& later.rows.len() == self.rows.len()
        &&& later.columns.len() == self.columns.len()
        &&& forall|y: int|
            0 <= y < self.rows.len() && self.rows[y] is Some ==> #[trigger] later.rows[y]
                == self.rows[y]
        &&& forall|x: int|
            0 <= x < self.columns.len() && self.columns[x] is Some ==> #[trigger] later.columns[x]
                == self.columns[x]
        &&& self.matrix is Some ==> later.matrix == self.matrix
    }

    /// Two states of binarizers over the same image with the same threshold.
    pub open spec fn same_image(self, other: Self) -> bool {
        &&& self.luminances == other.luminances
        &&& self.width == other.width
        &&& self.height == other.height
        &&& self.threshold == other.threshold
    }

    /// What a request for row `y` returns.
    pub open spec fn row_result(self, y: int) -> Result<Seq<bool>, Exceptions> {
        if 0 <= y < self.height {
            Ok(self.black_row(y))
        } else {
            Err(Exceptions::IndexOutOfBounds)
        }
    }

    /// The state after a request for row `y`: the first request for a row
    /// settles its cell, and nothing else ever changes.
    pub open spec fn after_row(self, y: int) -> Self {
        BinarizerState {
            rows: if 0 <= y < self.height && self.rows[y] is None {
                self.rows.update(y, Some(self.black_row(y)))
            } else {
                self.rows
            },
            ..self
        }
    }

    /// What a request for column `x` returns.
    pub open spec fn column_result(self, x: int) -> Result<Seq<bool>, Exceptions> {
        if 0 <= x < self.width {
            Ok(self.black_column(x))
        } else {
            Err(Exceptions::IndexOutOfBounds)
        }
    }

    /// The state after a request for column `x`.
    pub open spec fn after_column(self, x: int) -> Self {
        BinarizerState {
            columns: if 0 <= x < self.width && self.columns[x] is None {
                self.columns.update(x, Some(self.black_column(x)))
            } else {
                self.columns
            },
            ..self
        }
    }

    /// What a request for line `l` in the given orientation returns.
    pub open spec fn line_result(self, l: int, orientation: LineOrientation) -> Result<
        Seq<bool>,
        Exceptions,
    > {
        match orientation {
            LineOrientation::Row => self.row_result(l),
            LineOrientation::Column => self.column_result(l),
        }
    }

    /// The state after a request for line `l` in the given orientation.
    pub open spec fn after_line(self, l: int, orientation: LineOrientation) -> Self {
        match orientation {
            LineOrientation::Row => self.after_row(l),
            LineOrientation::Column => self.after_column(l),
        }
    }

    /// What a request for the whole matrix returns. An image without pixels
    /// has no matrix.
    pub open spec fn matrix_result(self) -> Result<BitGrid, Exceptions> {
        if self.width > 0 && self.height > 0 {
            Ok(self.black_matrix())
        } else {
            Err(Exceptions::IllegalArgument)
        }
    }

    /// The state after a request for the whole matrix.
    pub open spec fn after_matrix(self) -> Self {
        BinarizerState {
            matrix: if self.width > 0 && self.height > 0 && self.matrix is None {
                Some(self.black_matrix())
            } else {
                self.matrix
            },
            ..self
        }
    }

    /// What a request for row `y` by way of the matrix returns: the row of
    /// the cached matrix where there is one, else what a request for the row
    /// returns.
    pub open spec fn row_from_matrix_result(self, y: int) -> Result<Seq<bool>, Exceptions> {
        if 0 <= y < self.height {
            match self.matrix {
                Some(matrix) => Ok(matrix.row(y)),
                None => self.row_result(y),
            }
        } else {
            Err(Exceptions::IndexOutOfBounds)
        }
    }

    /// The state after a request for row `y` by way of the matrix. The
    /// matrix cell is never settled on this path.
    pub open spec fn after_row_from_matrix(self, y: int) -> Self {
        match self.matrix {
            Some(matrix) => self,
            None => self.after_row(y),
        }
    }
}

/// Every operation leads from a valid state to a valid state.
pub proof fn lemma_operations_preserve_wf(s: BinarizerState, l: int, orientation: LineOrientation)
    requires
        s.wf(),
    ensures
        s.after_row(l).wf(),
        s.after_column(l).wf(),
        s.after_line(l, orientation).wf(),
        s.after_matrix().wf(),
        s.after_row_from_matrix(l).wf(),
{
}

/// A settled cell never changes: whatever is asked of a binarizer next,
/// every cell that holds a value holds the same value afterwards.
pub proof fn lemma_settled_cells_stay(s: BinarizerState, l: int, orientation: LineOrientation)
    requires
        s.wf(),
    ensures
        s.kept_by(s.after_row(l)),
        s.kept_by(s.after_column(l)),
        s.kept_by(s.after_line(l, orientation)),
        s.kept_by(s.after_matrix()),
        s.kept_by(s.after_row_from_matrix(l)),
{
}

/// The three tiers are apart: a request for a row touches no cell of a
/// column and not the matrix cell, a request for a column touches no cell of
/// a row and not the matrix cell, and a request for the matrix touches no
/// cell of a row or of a column.
pub proof fn lemma_tiers_apart(s: BinarizerState, l: int)
    ensures
        s.after_row(l).columns == s.columns,
        s.after_row(l).matrix == s.matrix,
        s.after_column(l).rows == s.rows,
        s.after_column(l).matrix == s.matrix,
        s.after_matrix().rows == s.rows,
        s.after_matrix().columns == s.columns,
        s.after_row_from_matrix(l).columns == s.columns,
        s.after_row_from_matrix(l).matrix == s.matrix,
{
}

/// In every view a pixel is black exactly when its sample lies below the
/// threshold: the bit of `(x, y)` in row `y`, in column `x` and in the
/// matrix is `luminances[y * width + x] < threshold`.
pub proof fn lemma_threshold_rule(s: BinarizerState, x: int, y: int)
    requires
        s.wf(),
        0 <= x < s.width,
        0 <= y < s.height,
    ensures
        s.black_row(y)[x] == (s.luminances[y * s.width + x] < s.threshold),
        s.black_column(x)[y] == (s.luminances[y * s.width + x] < s.threshold),
        s.black_matrix().get(x, y) == (s.luminances[y * s.width + x] < s.threshold),
{
    lemma_row_major_index(s.width, s.height, x, y);
}

/// A second request for a row returns the very bits of the first and leaves
/// the state as the first request left it; the first request changes no
/// other row's cell, no column's cell and not the matrix cell.
pub proof fn lemma_row_idempotent(s: BinarizerState, y: int)
    requires
        s.wf(),
    ensures
        s.after_row(y).row_result(y) == s.row_result(y),
        s.after_row(y).after_row(y) == s.after_row(y),
        forall|k: int| 0 <= k < s.height && k != y ==> s.after_row(y).rows[k] == s.rows[k],
        s.after_row(y).columns == s.columns,
        s.after_row(y).matrix == s.matrix,
        s.after_row(y).same_image(s),
{
}

/// Whatever each of three binarizers over one image with one threshold has
/// cached, the matrix of the first, row `y` of the second and column `x` of
/// the third agree on the pixel `(x, y)`.
pub proof fn lemma_views_agree(
    a: BinarizerState,
    b: BinarizerState,
    c: BinarizerState,
    x: int,
    y: int,
)
    requires
        a.wf(),
        b.wf(),
        c.wf(),
        a.same_image(b),
        a.same_image(c),
        0 <= x < a.width,
        0 <= y < a.height,
    ensures
        a.matrix_result() is Ok,
        b.row_result(y) is Ok,
        c.line_result(x, LineOrientation::Column) is Ok,
        a.matrix_result()->Ok_0.get(x, y) == b.row_result(y)->Ok_0[x],
        b.row_result(y)->Ok_0[x] == c.line_result(x, LineOrientation::Column)->Ok_0[y],
{
    lemma_threshold_rule(a, x, y);
    lemma_threshold_rule(b, x, y);
    lemma_threshold_rule(c, x, y);
}

/// While the matrix cell is empty, a request for a row by way of the matrix
/// is a request for the row, in its result and in what it does to the state.
/// Once the matrix cell is settled, it returns that row of the cached matrix,
/// which has the bits that a request for the row returns, and it changes
/// nothing. Either way it leaves the matrix cell as it found it.
pub proof fn lemma_row_from_matrix(s: BinarizerState, y: int)
    requires
        s.wf(),
    ensures
        s.matrix is None ==> s.row_from_matrix_result(y) == s.row_result(y),
        s.matrix is None ==> s.after_row_from_matrix(y) == s.after_row(y),
        s.matrix is Some && 0 <= y < s.height ==> s.row_from_matrix_result(y) is Ok
            && s.row_from_matrix_result(y)->Ok_0 == s.matrix->0.row(y),
        s.matrix is Some ==> s.row_from_matrix_result(y) == s.row_result(y),
        s.matrix is Some ==> s.after_row_from_matrix(y) == s,
        s.after_row_from_matrix(y).matrix == s.matrix,
{
    if s.matrix is Some && 0 <= y < s.height {
        let matrix = s.matrix->0;
        assert forall|x: int| 0 <= x < s.width implies matrix.row(y)[x] == s.black_row(y)[x] by {
            lemma_threshold_rule(s, x, y);
        }
        assert(matrix.row(y) =~= s.black_row(y));
    }
}

/// Where a request for the matrix succeeds, it leaves the matrix that it
/// returned in the matrix cell, and a request for a row by way of the matrix
/// that comes after it returns that row of that matrix and changes nothing.
pub proof fn lemma_row_from_matrix_after_matrix(s: BinarizerState, y: int)
    requires
        s.wf(),
        s.matrix_result() is Ok,
    ensures
        s.after_matrix().matrix == Some(s.matrix_result()->Ok_0),
        0 <= y < s.height ==> s.after_matrix().row_from_matrix_result(y) is Ok
            && s.after_matrix().row_from_matrix_result(y)->Ok_0 == s.matrix_result()->Ok_0.row(y),
        s.after_matrix().after_row_from_matrix(y) == s.after_matrix(),
{
}

} // verus!
