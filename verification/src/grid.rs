//! Row-major addressing of a rectangular grid.
//!
//! A grid that is `cols` cells wide stores cell `(x, y)` at position
//! `x + cols * y` of a flat sequence. Everything that converts between the two
//! forms goes through the functions of this module.

use vstd::prelude::*;
use vstd::arithmetic::div_mod::{lemma_fundamental_div_mod, lemma_fundamental_div_mod_converse};

verus! {

/// Whether `(x, y)` names a cell of a grid of `rows` by `cols` cells.
pub open spec fn in_grid(rows: int, cols: int, x: int, y: int) -> bool {
    0 <= x < cols && 0 <= y < rows
}

/// The flat position of cell `(x, y)` in a grid that is `cols` cells wide.
pub open spec fn flat_index(cols: int, x: int, y: int) -> int {
    x + cols * y
}

/// The column of the cell stored at flat position `index`.
pub open spec fn column_of(cols: int, index: int) -> int {
    index % cols
}

/// The row of the cell stored at flat position `index`.
pub open spec fn row_of(cols: int, index: int) -> int {
    index / cols
}

/// Every cell of the grid has a flat position below `rows * cols`.
pub proof fn lemma_flat_index_in_bounds(rows: int, cols: int, x: int, y: int)
    requires
        in_grid(rows, cols, x, y),
    ensures
        0 <= flat_index(cols, x, y) < rows * cols,
{
    assert(0 <= cols * y) by (nonlinear_arith)
        requires
            0 <= y,
            0 < cols,
    ;
    assert(cols * y + cols <= rows * cols) by (nonlinear_arith)
        requires
            y + 1 <= rows,
            0 < cols,
    ;
}

/// Every flat position below `rows * cols` is that of a cell of the grid.
pub proof fn lemma_cell_in_grid(rows: int, cols: int, index: int)
    requires
        0 < cols,
        0 <= index < rows * cols,
    ensures
        in_grid(rows, cols, column_of(cols, index), row_of(cols, index)),
{
    lemma_fundamental_div_mod(index, cols);
    let q = index / cols;
    assert(0 <= q < rows) by (nonlinear_arith)
        requires
            0 < cols,
            0 <= index < rows * cols,
            index == cols * q + index % cols,
            0 <= index % cols < cols,
    ;
}

/// Taking a cell to its flat position and back gives the same cell.
pub proof fn lemma_cell_of_flat_index(cols: int, x: int, y: int)
    requires
        0 <= x < cols,
    ensures
        column_of(cols, flat_index(cols, x, y)) == x,
        row_of(cols, flat_index(cols, x, y)) == y,
{
    assert(x + cols * y == y * cols + x) by (nonlinear_arith);
    lemma_fundamental_div_mod_converse(x + cols * y, cols, y, x);
}

/// Taking a flat position to its cell and back gives the same position.
pub proof fn lemma_flat_index_of_cell(cols: int, index: int)
    requires
        0 < cols,
    ensures
        flat_index(cols, column_of(cols, index), row_of(cols, index)) == index,
        0 <= column_of(cols, index) < cols,
{
    lemma_fundamental_div_mod(index, cols);
}

/// Two cells with the same flat position are the same cell.
pub proof fn lemma_flat_index_injective(cols: int, x1: int, y1: int, x2: int, y2: int)
    requires
        0 <= x1 < cols,
        0 <= x2 < cols,
        flat_index(cols, x1, y1) == flat_index(cols, x2, y2),
    ensures
        x1 == x2,
        y1 == y2,
{
    lemma_cell_of_flat_index(cols, x1, y1);
    lemma_cell_of_flat_index(cols, x2, y2);
}

} // verus!
