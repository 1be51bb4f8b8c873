//! Index arithmetic for row-major grids of at most 65535 x 65535 cells.

use vstd::prelude::*;

verus! {

/// Position of cell (`r`, `c`) in a row-major grid with `cols` columns.
pub open spec fn idx(r: int, c: int, cols: int) -> int {
    r * cols + c
}

/// A cell inside a `rows` x `cols` grid has an index inside the grid, and
/// its row starts and ends inside the grid too.
pub proof fn lemma_idx_in_grid(r: int, c: int, rows: int, cols: int)
    requires
        0 <= r < rows,
        0 <= c < cols,
    ensures
        0 <= r * cols,
        r * cols + c < rows * cols,
        r * cols + cols <= rows * cols,
        idx(r, c, cols) == r * cols + c,
{
    assert(0 <= r * cols) by (nonlinear_arith)
        requires
            0 <= r,
            0 <= c < cols,
    ;
    assert(r * cols + cols <= rows * cols) by (nonlinear_arith)
        requires
            0 <= r < rows,
            0 <= c < cols,
    ;
}

/// A row of a `rows` x `cols` grid starts and ends inside the grid.
pub proof fn lemma_row_in_grid(r: int, rows: int, cols: int)
    requires
        0 <= r < rows,
        0 <= cols,
    ensures
        0 <= r * cols,
        r * cols + cols <= rows * cols,
{
    assert(0 <= r * cols) by (nonlinear_arith)
        requires
            0 <= r,
            0 <= cols,
    ;
    assert(r * cols + cols <= rows * cols) by (nonlinear_arith)
        requires
            0 <= r < rows,
            0 <= cols,
    ;
}

/// Distinct cells of a grid have distinct indices.
pub proof fn lemma_idx_injective(r1: int, c1: int, r2: int, c2: int, cols: int)
    requires
        0 <= r1,
        0 <= r2,
        0 <= c1 < cols,
        0 <= c2 < cols,
        r1 * cols + c1 == r2 * cols + c2,
    ensures
        r1 == r2,
        c1 == c2,
{
    if r1 < r2 {
        assert(r1 * cols + cols <= r2 * cols) by (nonlinear_arith)
            requires
                r1 < r2,
                0 <= c1 < cols,
        ;
    } else if r2 < r1 {
        assert(r2 * cols + cols <= r1 * cols) by (nonlinear_arith)
            requires
                r2 < r1,
                0 <= c1 < cols,
        ;
    }
}

/// Every index of a grid is the index of some cell: its row and column.
pub proof fn lemma_idx_cover(i: int, rows: int, cols: int) -> (rc: (int, int))
    requires
        0 <= i < rows * cols,
        cols > 0,
    ensures
        0 <= rc.0 < rows,
        0 <= rc.1 < cols,
        i == rc.0 * cols + rc.1,
{
    let r = i / cols;
    let c = i % cols;
    assert(i == r * cols + c && 0 <= c < cols) by (nonlinear_arith)
        requires
            cols > 0,
            r == i / cols,
            c == i % cols,
    ;
    assert(0 <= r < rows) by (nonlinear_arith)
        requires
            0 <= i < rows * cols,
            cols > 0,
            i == r * cols + c,
            0 <= c < cols,
    ;
    (r, c)
}

/// The number of cells of a grid with 16-bit dimensions fits in 32 bits.
pub proof fn lemma_grid_size(rows: u16, cols: u16)
    ensures
        rows as int * cols as int <= 0xfffe0001,
        0 <= rows as int * cols as int,
{
    assert(rows as int * cols as int <= 0xfffe0001) by (nonlinear_arith)
        requires
            rows <= 0xffff,
            cols <= 0xffff,
    ;
    assert(0 <= rows as int * cols as int) by (nonlinear_arith);
}

/// `r * cols` for a row of a 16-bit grid, computed without overflow.
pub fn row_start(r: u16, cols: u16) -> (s: usize)
    ensures
        s == r as int * cols as int,
{
    proof {
        lemma_grid_size(r, cols);
    }
    r as usize * cols as usize
}

/// Index of cell (`r`, `c`) in a `rows` x `cols` grid.
pub fn cell_index(r: u16, c: u16, rows: u16, cols: u16) -> (i: usize)
    requires
        r < rows,
        c < cols,
    ensures
        i == idx(r as int, c as int, cols as int),
        i < rows as int * cols as int,
        r as int * cols as int + cols as int <= rows as int * cols as int,
{
    proof {
        lemma_idx_in_grid(r as int, c as int, rows as int, cols as int);
        lemma_grid_size(rows, cols);
    }
    row_start(r, cols) + c as usize
}

/// `rows * cols` for 16-bit dimensions, computed without overflow.
pub fn grid_len(rows: u16, cols: u16) -> (n: usize)
    ensures
        n == rows as int * cols as int,
        n <= 0xfffe0001,
{
    proof {
        lemma_grid_size(rows, cols);
    }
    rows as usize * cols as usize
}

} // verus!
