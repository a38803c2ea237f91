//! Row-major addressing of the character grid: cell `(x, y)` of a grid that is
//! `cols` wide sits at index `y * cols + x`.

use vstd::prelude::*;
use vstd::arithmetic::div_mod::{lemma_fundamental_div_mod, lemma_fundamental_div_mod_converse};

verus! {

/// Column of grid index `i`.
pub open spec fn col_of(i: int, cols: int) -> int {
    i % cols
}

/// Row of grid index `i`.
pub open spec fn row_of(i: int, cols: int) -> int {
    i / cols
}

/// Distance between two coordinates.
pub open spec fn dist(a: int, b: int) -> int {
    if a >= b { a - b } else { b - a }
}

/// Index `i` holds cell `(x, y)` exactly when `i == y * cols + x`.
pub proof fn lemma_index_of_cell(i: int, cols: int, x: int, y: int)
    requires
        cols > 0,
        0 <= x < cols,
    ensures
        (col_of(i, cols) == x && row_of(i, cols) == y) <==> i == y * cols + x,
{
    if i == y * cols + x {
        lemma_fundamental_div_mod_converse(i, cols, y, x);
    }
    if col_of(i, cols) == x && row_of(i, cols) == y {
        lemma_fundamental_div_mod(i, cols);
        assert(cols * y == y * cols) by (nonlinear_arith);
    }
}

/// The index of cell `(x, y)` lies inside a `cols` by `rows` grid.
pub proof fn lemma_cell_in_grid(cols: int, rows: int, x: int, y: int)
    requires
        0 <= x < cols,
        0 <= y < rows,
    ensures
        0 <= y * cols + x < cols * rows,
{
    assert(y * cols + x < cols * rows) by (nonlinear_arith)
        requires
            0 <= x < cols,
            0 <= y < rows,
    ;
    assert(0 <= y * cols) by (nonlinear_arith)
        requires
            0 <= y,
            0 <= cols,
    ;
}

} // verus!
