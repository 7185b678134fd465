//! The write-once cells that hold cached lines and the cached matrix.
//!
//! The cells are `once_cell::sync::OnceCell`. Nothing in this file is proved:
//! each function states what the cell type's own method does, over a name for
//! what a cell holds. A cell changes only through an exclusive reference
//! here, so what it holds is a fact about its value.
use vstd::prelude::*;
use once_cell::sync::OnceCell;
use crate::common::bit_array::BitArray;
use crate::common::bit_matrix::{BitGrid, BitMatrix};
use crate::exceptions::Exceptions;

verus! {

/// `once_cell::sync::OnceCell`, a cell that is empty or holds one value.
#[verifier::external_type_specification]
#[verifier::external_body]
#[verifier::reject_recursive_types(T)]
pub struct ExOnceCell<T>(OnceCell<T>);

/// What a line cell holds: `None` while it is empty, else the bits of the
/// line it was settled with.
pub uninterp spec fn line_cell_value(cell: OnceCell<BitArray>) -> Option<Seq<bool>>;

/// What a matrix cell holds: `None` while it is empty, else the grid of the
/// matrix it was settled with.
pub uninterp spec fn matrix_cell_value(cell: OnceCell<BitMatrix>) -> Option<BitGrid>;

/// `OnceCell::new`, which creates an empty cell.
#[verifier::external_body]
pub(crate) fn line_cell_new() -> (cell: OnceCell<BitArray>)
    ensures
        line_cell_value(cell) is None,
{
    OnceCell::new()
}

/// `OnceCell::get_or_try_init`. A settled cell returns what it holds and
/// does not call `init`. An empty cell calls `init`: when that returns `Ok`,
/// the cell is settled with the value and returns it; when it returns `Err`,
/// the cell stays empty and the error is handed on.
#[verifier::external_body]
pub(crate) fn line_cell_get_or_try_init<F: FnOnce() -> Result<BitArray, Exceptions>>(
    cell: &mut OnceCell<BitArray>,
    init: F,
) -> (res: Result<&BitArray, Exceptions>)
    requires
        line_cell_value(*old(cell)) is None ==> init.requires(()),
    ensures
        line_cell_value(*old(cell)) matches Some(line) ==> res is Ok && res->Ok_0@ == line
            && line_cell_value(*final(cell)) == Some(line),
        line_cell_value(*old(cell)) is None && res is Ok ==> init.ensures((), Ok(*res->Ok_0))
            && line_cell_value(*final(cell)) == Some(res->Ok_0@),
        line_cell_value(*old(cell)) is None && res is Err ==> init.ensures((), Err(res->Err_0))
            && line_cell_value(*final(cell)) is None,
{
    cell.get_or_try_init(init)
}

/// `OnceCell::new`, which creates an empty cell.
#[verifier::external_body]
pub(crate) fn matrix_cell_new() -> (cell: OnceCell<BitMatrix>)
    ensures
        matrix_cell_value(cell) is None,
{
    OnceCell::new()
}

/// `OnceCell::get`, which returns a reference to the value that the cell
/// holds, or `None` for an empty cell.
#[verifier::external_body]
pub(crate) fn matrix_cell_get(cell: &OnceCell<BitMatrix>) -> (held: Option<&BitMatrix>)
    ensures
        matrix_cell_value(*cell) matches Some(grid) ==> held is Some && held->0@ == grid,
        matrix_cell_value(*cell) is None ==> held is None,
{
    cell.get()
}

/// `OnceCell::get_or_try_init`. A settled cell returns what it holds and
/// does not call `init`. An empty cell calls `init`: when that returns `Ok`,
/// the cell is settled with the value and returns it; when it returns `Err`,
/// the cell stays empty and the error is handed on.
#[verifier::external_body]
pub(crate) fn matrix_cell_get_or_try_init<F: FnOnce() -> Result<BitMatrix, Exceptions>>(
    cell: &mut OnceCell<BitMatrix>,
    init: F,
) -> (res: Result<&BitMatrix, Exceptions>)
    requires
        matrix_cell_value(*old(cell)) is None ==> init.requires(()),
    ensures
        matrix_cell_value(*old(cell)) matches Some(grid) ==> res is Ok && res->Ok_0@ == grid
            && matrix_cell_value(*final(cell)) == Some(grid),
        matrix_cell_value(*old(cell)) is None && res is Ok ==> init.ensures((), Ok(*res->Ok_0))
            && matrix_cell_value(*final(cell)) == Some(res->Ok_0@),
        matrix_cell_value(*old(cell)) is None && res is Err ==> init.ensures((), Err(res->Err_0))
            && matrix_cell_value(*final(cell)) is None,
{
    cell.get_or_try_init(init)
}

} // verus!
