//! Terminal grid: cell storage, cursor, current style and dirty tracking.

use crate::grid_index::{cell_index, grid_len, idx, lemma_grid_size, lemma_idx_in_grid, lemma_row_in_grid, row_start};
use crate::vt_parser::{default_style, CellStyle, GridChange};
use vstd::prelude::*;

verus! {

/// Terminal cell: a character and its style.
#[derive(Debug, Clone, Copy, PartialEq, Eq, Structural)]
pub struct Cell {
    pub ch: char,
    pub style: CellStyle,
}

/// An empty cell: a space in the default style.
pub open spec fn blank() -> Cell {
    Cell { ch: ' ', style: default_style() }
}

impl Cell {
    /// An empty cell: a space in the default style.
    pub fn blank() -> (c: Self)
        ensures
            c == blank(),
    {
        Cell { ch: ' ', style: CellStyle::default_style() }
    }
}

impl Default for Cell {
    fn default() -> (c: Self)
        ensures
            c == blank(),
    {
        Cell::blank()
    }
}

// ---------------------------------------------------------------------------
// Dirty region
// ---------------------------------------------------------------------------

/// Abstract dirty-tracking state: one flag per cell, plus "everything".
pub ghost struct DirtyView {
    pub rows: u16,
    pub cols: u16,
    pub cells: Seq<bool>,
    pub all: bool,
}

/// Whether cell (`r`, `c`) is reported dirty.
pub open spec fn dirty_at(d: DirtyView, r: int, c: int) -> bool {
    d.all || (0 <= r < d.rows && 0 <= c < d.cols && d.cells[idx(r, c, d.cols as int)])
}

pub open spec fn dirty_wf(d: DirtyView) -> bool {
    d.cells.len() == d.rows as int * d.cols as int
}

pub open spec fn mark_cell(d: DirtyView, r: int, c: int) -> DirtyView {
    if 0 <= r < d.rows && 0 <= c < d.cols {
        DirtyView { cells: d.cells.update(idx(r, c, d.cols as int), true), ..d }
    } else {
        d
    }
}

pub open spec fn mark_row(d: DirtyView, r: int) -> DirtyView {
    if 0 <= r < d.rows {
        DirtyView {
            cells: Seq::new(
                d.cells.len(),
                |i: int| d.cells[i] || (r * d.cols <= i < r * d.cols + d.cols),
            ),
            ..d
        }
    } else {
        d
    }
}

pub open spec fn mark_all(d: DirtyView) -> DirtyView {
    DirtyView { all: true, ..d }
}

/// Row-major order on cell positions.
pub open spec fn before(a: (u16, u16), b: (u16, u16)) -> bool {
    a.0 < b.0 || (a.0 == b.0 && a.1 < b.1)
}

/// Dirty region tracking for efficient rendering.
pub struct DirtyRegion {
    rows: u16,
    cols: u16,
    dirty_cells: Vec<bool>,
    all_dirty: bool,
}

impl View for DirtyRegion {
    type V = DirtyView;

    closed spec fn view(&self) -> DirtyView {
        DirtyView { rows: self.rows, cols: self.cols, cells: self.dirty_cells@, all: self.all_dirty }
    }
}

impl DirtyRegion {
    /// A region for a `rows` x `cols` grid; starts entirely dirty so the
    /// first frame is drawn in full.
    pub fn new(rows: u16, cols: u16) -> (d: Self)
        ensures
            d@.rows == rows,
            d@.cols == cols,
            d@.cells == Seq::new((rows as int * cols as int) as nat, |i: int| false),
            d@.all,
            dirty_wf(d@),
    {
        let n = grid_len(rows, cols);
        let mut cells: Vec<bool> = Vec::new();
        let mut i: usize = 0;
        while i < n
            invariant
                i <= n,
                cells@ == Seq::new(i as nat, |j: int| false),
            decreases n - i,
        {
            cells.push(false);
            i = i + 1;
            proof {
                assert(cells@ =~= Seq::new(i as nat, |j: int| false));
            }
        }
        DirtyRegion { rows, cols, dirty_cells: cells, all_dirty: true }
    }

    /// Mark one cell dirty (positions outside the grid are ignored).
    pub fn mark_cell(&mut self, row: u16, col: u16)
        requires
            dirty_wf(old(self)@),
        ensures
            final(self)@ == mark_cell(old(self)@, row as int, col as int),
            dirty_wf(final(self)@),
    {
        if row >= self.rows || col >= self.cols {
            return;
        }
        let i = cell_index(row, col, self.rows, self.cols);
        self.dirty_cells.set(i, true);
    }

    /// Mark a whole row dirty (rows outside the grid are ignored).
    pub fn mark_row(&mut self, row: u16)
        requires
            dirty_wf(old(self)@),
        ensures
            final(self)@ == mark_row(old(self)@, row as int),
            dirty_wf(final(self)@),
    {
        if row >= self.rows {
            return;
        }
        proof {
            lemma_row_in_grid(row as int, self.rows as int, self.cols as int);
            lemma_grid_size(self.rows, self.cols);
        }
        let start = row_start(row, self.cols);
        let end = start + self.cols as usize;
        let ghost old_cells = self.dirty_cells@;
        let mut i = start;
        while i < end
            invariant
                start <= i <= end,
                end <= old_cells.len(),
                start == row as int * self.cols as int,
                end == start + self.cols as int,
                self.rows == old(self).rows,
                self.cols == old(self).cols,
                self.all_dirty == old(self).all_dirty,
                old_cells == old(self).dirty_cells@,
                self.dirty_cells@.len() == old_cells.len(),
                forall|j: int|
                    0 <= j < old_cells.len() ==> #[trigger] self.dirty_cells@[j] == (old_cells[j]
                        || (start <= j < i)),
            decreases end - i,
        {
            self.dirty_cells.set(i, true);
            i = i + 1;
        }
        proof {
            assert(self.dirty_cells@ =~= mark_row(old(self)@, row as int).cells);
        }
    }

    /// Mark every cell dirty.
    pub fn mark_all(&mut self)
        ensures
            final(self)@ == mark_all(old(self)@),
    {
        self.all_dirty = true;
    }

    /// Whether a cell is dirty.
    pub fn is_dirty(&self, row: u16, col: u16) -> (b: bool)
        requires
            dirty_wf(self@),
        ensures
            b == dirty_at(self@, row as int, col as int),
    {
        if self.all_dirty {
            return true;
        }
        if row >= self.rows || col >= self.cols {
            return false;
        }
        self.dirty_cells[cell_index(row, col, self.rows, self.cols)]
    }

    /// Nothing dirty any more.
    pub fn clear(&mut self)
        requires
            dirty_wf(old(self)@),
        ensures
            final(self)@ == (DirtyView {
                all: false,
                cells: Seq::new(old(self)@.cells.len(), |i: int| false),
                ..old(self)@
            }),
            dirty_wf(final(self)@),
    {
        self.all_dirty = false;
        let n = self.dirty_cells.len();
        let mut i: usize = 0;
        while i < n
            invariant
                n == self.dirty_cells@.len(),
                n == old(self).dirty_cells@.len(),
                self.rows == old(self).rows,
                self.cols == old(self).cols,
                !self.all_dirty,
                i <= n,
                forall|j: int| 0 <= j < i ==> !#[trigger] self.dirty_cells@[j],
            decreases n - i,
        {
            self.dirty_cells.set(i, false);
            i = i + 1;
        }
        proof {
            assert(self.dirty_cells@ =~= Seq::new(old(self)@.cells.len(), |i: int| false));
        }
    }

    /// All dirty cells as (row, col), in row-major order, each once.
    pub fn iter_dirty(&self) -> (v: Vec<(u16, u16)>)
        requires
            dirty_wf(self@),
        ensures
            forall|r: u16, c: u16|
                #![trigger v@.contains((r, c))]
                #![trigger dirty_at(self@, r as int, c as int)]
                v@.contains((r, c)) <==> (r < self@.rows && c < self@.cols && dirty_at(
                    self@,
                    r as int,
                    c as int,
                )),
            forall|i: int, j: int| 0 <= i < j < v@.len() ==> before(v@[i], v@[j]),
    {
        let mut out: Vec<(u16, u16)> = Vec::new();
        let mut r: u16 = 0;
        while r < self.rows
            invariant
                dirty_wf(self@),
                r <= self.rows,
                forall|rr: u16, cc: u16|
                    #[trigger] out@.contains((rr, cc)) <==> listed_before(self@, rr, cc, r, 0),
                forall|i: int, j: int| 0 <= i < j < out@.len() ==> before(out@[i], out@[j]),
                forall|i: int| 0 <= i < out@.len() ==> before(#[trigger] out@[i], (r, 0)),
            decreases self.rows - r,
        {
            let mut c: u16 = 0;
            while c < self.cols
                invariant
                    dirty_wf(self@),
                    r < self.rows,
                    c <= self.cols,
                    forall|rr: u16, cc: u16|
                        #[trigger] out@.contains((rr, cc)) <==> listed_before(self@, rr, cc, r, c),
                    forall|i: int, j: int| 0 <= i < j < out@.len() ==> before(out@[i], out@[j]),
                    forall|i: int| 0 <= i < out@.len() ==> before(#[trigger] out@[i], (r, c)),
                decreases self.cols - c,
            {
                let ghost prev = out@;
                if self.is_dirty(r, c) {
                    out.push((r, c));
                    proof {
                        assert forall|rr: u16, cc: u16|
                            #[trigger] out@.contains((rr, cc)) <==> listed_before(
                                self@,
                                rr,
                                cc,
                                r,
                                (c + 1) as u16,
                            ) by {
                            lemma_push_contains(prev, (r, c), (rr, cc));
                        }
                    }
                }
                proof {
                    assert forall|i: int| 0 <= i < out@.len() implies before(
                        #[trigger] out@[i],
                        (r, (c + 1) as u16),
                    ) by {
                        if i < prev.len() {
                            assert(out@[i] == prev[i]);
                        }
                    }
                    assert forall|rr: u16, cc: u16|
                        #[trigger] out@.contains((rr, cc)) <==> listed_before(
                            self@,
                            rr,
                            cc,
                            r,
                            (c + 1) as u16,
                        ) by {
                        if out@.contains((rr, cc)) && out@ == prev && rr == r && cc == c {
                            let k = choose|k: int| 0 <= k < out@.len() && out@[k] == (rr, cc);
                            assert(before(out@[k], (r, c)));
                        }
                    }
                }
                c = c + 1;
            }
            proof {
                assert forall|rr: u16, cc: u16|
                    #[trigger] out@.contains((rr, cc)) <==> listed_before(
                        self@,
                        rr,
                        cc,
                        (r + 1) as u16,
                        0,
                    ) by {
                    assert(listed_before(self@, rr, cc, r, c) == listed_before(
                        self@,
                        rr,
                        cc,
                        (r + 1) as u16,
                        0,
                    ));
                }
                assert forall|i: int| 0 <= i < out@.len() implies before(
                    #[trigger] out@[i],
                    ((r + 1) as u16, 0),
                ) by {
                    assert(before(out@[i], (r, c)));
                }
            }
            r = r + 1;
        }
        proof {
            assert forall|rr: u16, cc: u16|
                #[trigger] out@.contains((rr, cc)) <==> (rr < self@.rows && cc < self@.cols
                    && dirty_at(self@, rr as int, cc as int)) by {
                assert(listed_before(self@, rr, cc, r, 0) == (rr < self@.rows && cc < self@.cols
                    && dirty_at(self@, rr as int, cc as int)));
            }
        }
        out
    }
}

/// Cell (`rr`, `cc`) is a dirty cell of the grid that comes before
/// (`r`, `c`) in row-major order.
pub open spec fn listed_before(d: DirtyView, rr: u16, cc: u16, r: u16, c: u16) -> bool {
    &&& before((rr, cc), (r, c))
    &&& rr < d.rows
    &&& cc < d.cols
    &&& dirty_at(d, rr as int, cc as int)
}

proof fn lemma_push_contains<A>(s: Seq<A>, x: A, y: A)
    ensures
        s.push(x).contains(y) <==> (s.contains(y) || y == x),
{
    if s.contains(y) {
        let k = choose|k: int| 0 <= k < s.len() && s[k] == y;
        assert(s.push(x)[k] == y);
    }
    if y == x {
        assert(s.push(x)[s.len() as int] == y);
    }
    if s.push(x).contains(y) {
        let k = choose|k: int| 0 <= k < s.push(x).len() && s.push(x)[k] == y;
        if k < s.len() {
            assert(s[k] == y);
        }
    }
}

/// One operation on a dirty region.
pub ghost enum DirtyOp {
    MarkCell(int, int),
    MarkRow(int),
    MarkAll,
    Clear,
}

/// A dirty region after `clear`: nothing dirty.
pub open spec fn dirty_cleared(d: DirtyView) -> DirtyView {
    DirtyView { all: false, cells: Seq::new(d.cells.len(), |i: int| false), ..d }
}

/// Effect of one operation on a dirty region.
pub open spec fn dirty_op(d: DirtyView, op: DirtyOp) -> DirtyView {
    match op {
        DirtyOp::MarkCell(r, c) => mark_cell(d, r, c),
        DirtyOp::MarkRow(r) => mark_row(d, r),
        DirtyOp::MarkAll => mark_all(d),
        DirtyOp::Clear => dirty_cleared(d),
    }
}

/// A dirty region after a sequence of operations, in order.
pub open spec fn dirty_ops(d: DirtyView, ops: Seq<DirtyOp>) -> DirtyView
    decreases ops.len(),
{
    if ops.len() == 0 {
        d
    } else {
        dirty_op(dirty_ops(d, ops.drop_last()), ops.last())
    }
}

/// Whether the operations include a `clear`.
pub open spec fn has_clear(ops: Seq<DirtyOp>) -> bool
    decreases ops.len(),
{
    ops.len() > 0 && (ops.last() == DirtyOp::Clear || has_clear(ops.drop_last()))
}

/// The operations after the last `clear` (all of them if there is none).
pub open spec fn since_clear(ops: Seq<DirtyOp>) -> Seq<DirtyOp>
    decreases ops.len(),
{
    if ops.len() == 0 {
        ops
    } else if ops.last() == DirtyOp::Clear {
        Seq::empty()
    } else {
        since_clear(ops.drop_last()).push(ops.last())
    }
}

proof fn lemma_row_mark_hits(r0: int, r: int, c: int, rows: int, cols: int)
    requires
        0 <= r0 < rows,
        0 <= r < rows,
        0 <= c < cols,
    ensures
        (r0 * cols <= r * cols + c < r0 * cols + cols) == (r == r0),
{
    if r < r0 {
        assert(r * cols + cols <= r0 * cols) by (nonlinear_arith)
            requires
                r < r0,
                0 <= c < cols,
        ;
    } else if r > r0 {
        assert(r0 * cols + cols <= r * cols) by (nonlinear_arith)
            requires
                r0 < r,
                0 <= c < cols,
        ;
    }
}

/// What a dirty region reports after any history of marks and clears: a
/// cell is dirty exactly when the region was dirty there and has not been
/// cleared since, or everything was marked since the last clear, or the
/// cell lies in the grid and it or its row was marked since the last clear.
pub proof fn lemma_dirty_history(d: DirtyView, ops: Seq<DirtyOp>, r: int, c: int)
    requires
        dirty_wf(d),
    ensures
        dirty_wf(dirty_ops(d, ops)),
        dirty_ops(d, ops).rows == d.rows,
        dirty_ops(d, ops).cols == d.cols,
        dirty_at(dirty_ops(d, ops), r, c) == ((!has_clear(ops) && dirty_at(d, r, c))
            || since_clear(ops).contains(DirtyOp::MarkAll) || (0 <= r < d.rows && 0 <= c
            < d.cols && (since_clear(ops).contains(DirtyOp::MarkCell(r, c)) || since_clear(
            ops,
        ).contains(DirtyOp::MarkRow(r))))),
    decreases ops.len(),
{
    if ops.len() > 0 {
        let init = ops.drop_last();
        let op = ops.last();
        lemma_dirty_history(d, init, r, c);
        let q = dirty_ops(d, init);
        let sc = since_clear(init);
        if 0 <= r < d.rows && 0 <= c < d.cols {
            lemma_idx_in_grid(r, c, d.rows as int, d.cols as int);
        }
        match op {
            DirtyOp::Clear => {
                assert(since_clear(ops) =~= Seq::<DirtyOp>::empty());
            },
            DirtyOp::MarkAll => {
                lemma_push_contains(sc, op, DirtyOp::MarkAll);
            },
            DirtyOp::MarkCell(r0, c0) => {
                lemma_push_contains(sc, op, DirtyOp::MarkAll);
                lemma_push_contains(sc, op, DirtyOp::MarkCell(r, c));
                lemma_push_contains(sc, op, DirtyOp::MarkRow(r));
                if 0 <= r0 < d.rows && 0 <= c0 < d.cols {
                    lemma_idx_in_grid(r0, c0, d.rows as int, d.cols as int);
                    if 0 <= r < d.rows && 0 <= c < d.cols && idx(r, c, d.cols as int) == idx(
                        r0,
                        c0,
                        d.cols as int,
                    ) {
                        crate::grid_index::lemma_idx_injective(r, c, r0, c0, d.cols as int);
                    }
                }
            },
            DirtyOp::MarkRow(r0) => {
                lemma_push_contains(sc, op, DirtyOp::MarkAll);
                lemma_push_contains(sc, op, DirtyOp::MarkCell(r, c));
                lemma_push_contains(sc, op, DirtyOp::MarkRow(r));
                if 0 <= r0 < d.rows && 0 <= r < d.rows && 0 <= c < d.cols {
                    lemma_row_mark_hits(r0, r, c, d.rows as int, d.cols as int);
                }
            },
        }
    }
}

// ---------------------------------------------------------------------------
// Terminal grid
// ---------------------------------------------------------------------------

/// Abstract state of a terminal grid.
pub ghost struct GridView {
    pub rows: u16,
    pub cols: u16,
    /// Cells in row-major order
    pub cells: Seq<Cell>,
    pub cursor_row: u16,
    pub cursor_col: u16,
    pub style: CellStyle,
    pub dirty: DirtyView,
}

/// Cell (`r`, `c`) of a grid.
pub open spec fn cell_at(g: GridView, r: int, c: int) -> Cell {
    g.cells[idx(r, c, g.cols as int)]
}

pub open spec fn grid_wf(g: GridView) -> bool {
    &&& g.cells.len() == g.rows as int * g.cols as int
    &&& g.dirty.rows == g.rows
    &&& g.dirty.cols == g.cols
    &&& dirty_wf(g.dirty)
    &&& g.cursor_row < 0xffff
}

pub open spec fn blank_row(n: nat) -> Seq<Cell> {
    Seq::new(n, |i: int| blank())
}

/// Every row moves up by one; a blank row appears at the bottom.
pub open spec fn scrolled_up(g: GridView) -> GridView {
    GridView {
        cells: g.cells.subrange(g.cols as int, g.cells.len() as int) + blank_row(g.cols as nat),
        dirty: mark_all(g.dirty),
        ..g
    }
}

/// Every row moves down by one; a blank row appears at the top.
pub open spec fn scrolled_down(g: GridView) -> GridView {
    GridView {
        cells: blank_row(g.cols as nat) + g.cells.subrange(0, g.cells.len() - g.cols),
        dirty: mark_all(g.dirty),
        ..g
    }
}

/// Cursor to the start of the next row, scrolling at the bottom.
pub open spec fn newline(g: GridView) -> GridView {
    let g1 = if g.cursor_row + 1 >= g.rows {
        GridView { cursor_row: (g.rows - 1) as u16, ..scrolled_up(g) }
    } else {
        GridView { cursor_row: (g.cursor_row + 1) as u16, ..g }
    };
    GridView { cursor_col: 0, dirty: mark_row(g1.dirty, g1.cursor_row as int), ..g1 }
}

/// Write a character at the cursor in the current style and advance,
/// wrapping to the next row after the last column.
pub open spec fn print_char(g: GridView, ch: char) -> GridView {
    if g.cursor_row >= g.rows || g.cursor_col >= g.cols {
        g
    } else {
        let g1 = GridView {
            cells: g.cells.update(
                idx(g.cursor_row as int, g.cursor_col as int, g.cols as int),
                Cell { ch, style: g.style },
            ),
            dirty: mark_cell(g.dirty, g.cursor_row as int, g.cursor_col as int),
            cursor_col: (g.cursor_col + 1) as u16,
            ..g
        };
        if g1.cursor_col >= g.cols {
            newline(g1)
        } else {
            g1
        }
    }
}

/// All cells blank, cursor home, everything dirty.
pub open spec fn cleared(g: GridView) -> GridView {
    GridView {
        cells: blank_row(g.cells.len()),
        cursor_row: 0,
        cursor_col: 0,
        dirty: mark_all(g.dirty),
        ..g
    }
}

pub open spec fn min_int(a: int, b: int) -> int {
    if a <= b { a } else { b }
}

/// Column of the next tab stop (every 8 columns), limited to the last column.
pub open spec fn tab_stop(col: int, cols: int) -> int {
    min_int((col / 8 + 1) * 8, cols - 1)
}

/// Whether a change can be applied to a grid of these dimensions (changes
/// that need a last row or column cannot be applied to an empty grid).
pub open spec fn change_defined(rows: u16, cols: u16, c: GridChange) -> bool {
    match c {
        GridChange::Newline | GridChange::ScrollUp => rows > 0,
        GridChange::Tab => cols > 0,
        GridChange::CursorMove { .. } => rows > 0 && cols > 0,
        GridChange::ScrollDown => rows > 0 || cols == 0,
        _ => true,
    }
}

/// Effect of one change on a grid.
pub open spec fn apply_change(g: GridView, c: GridChange) -> GridView {
    match c {
        GridChange::PrintChar(ch) => print_char(g, ch),
        GridChange::Newline => newline(g),
        GridChange::CarriageReturn => GridView {
            cursor_col: 0,
            dirty: mark_row(g.dirty, g.cursor_row as int),
            ..g
        },
        GridChange::Tab => GridView {
            cursor_col: tab_stop(g.cursor_col as int, g.cols as int) as u16,
            dirty: mark_row(g.dirty, g.cursor_row as int),
            ..g
        },
        GridChange::Backspace => if g.cursor_col > 0 {
            GridView {
                cursor_col: (g.cursor_col - 1) as u16,
                dirty: mark_cell(g.dirty, g.cursor_row as int, g.cursor_col - 1),
                ..g
            }
        } else {
            g
        },
        GridChange::ClearScreen => cleared(g),
        GridChange::CursorMove { row, col } => GridView {
            cursor_row: min_int(row as int, g.rows - 1) as u16,
            cursor_col: min_int(col as int, g.cols - 1) as u16,
            ..g
        },
        GridChange::StyleChange(s) => GridView { style: s, ..g },
        GridChange::ScrollUp => scrolled_up(g),
        GridChange::ScrollDown => scrolled_down(g),
    }
}

/// Effect of a list of changes, in order.
pub open spec fn apply_all(g: GridView, cs: Seq<GridChange>) -> GridView
    decreases cs.len(),
{
    if cs.len() == 0 {
        g
    } else {
        apply_change(apply_all(g, cs.drop_last()), cs.last())
    }
}

/// The cell at (`r`, `c`) after a resize from `old_cols` columns: kept where
/// the old grid had a cell there, blank elsewhere.
pub open spec fn resized_cell(
    old_cells: Seq<Cell>,
    old_rows: u16,
    old_cols: u16,
    r: int,
    c: int,
) -> Cell {
    if r < old_rows && c < old_cols {
        old_cells[idx(r, c, old_cols as int)]
    } else {
        blank()
    }
}

/// Terminal grid managing cells and cursor.
pub struct TerminalGrid {
    rows: u16,
    cols: u16,
    cells: Vec<Cell>,
    cursor_row: u16,
    cursor_col: u16,
    current_style: CellStyle,
    dirty: DirtyRegion,
}

impl View for TerminalGrid {
    type V = GridView;

    closed spec fn view(&self) -> GridView {
        GridView {
            rows: self.rows,
            cols: self.cols,
            cells: self.cells@,
            cursor_row: self.cursor_row,
            cursor_col: self.cursor_col,
            style: self.current_style,
            dirty: self.dirty@,
        }
    }
}

impl TerminalGrid {
    /// Whether the grid's internal invariant holds (every grid built and
    /// changed through this API keeps it).
    pub open spec fn wf(&self) -> bool {
        grid_wf(self@)
    }

    /// New blank grid with the cursor home and everything dirty.
    pub fn new(rows: u16, cols: u16) -> (g: Self)
        ensures
            g.wf(),
            g@.rows == rows,
            g@.cols == cols,
            g@.cells == blank_row((rows as int * cols as int) as nat),
            g@.cursor_row == 0,
            g@.cursor_col == 0,
            g@.style == default_style(),
            g@.dirty.all,
            g@.dirty.cells == Seq::new((rows as int * cols as int) as nat, |i: int| false),
    {
        let n = grid_len(rows, cols);
        let mut cells: Vec<Cell> = Vec::new();
        let mut i: usize = 0;
        while i < n
            invariant
                i <= n,
                cells@ == blank_row(i as nat),
            decreases n - i,
        {
            cells.push(Cell::blank());
            i = i + 1;
            proof {
                assert(cells@ =~= blank_row(i as nat));
            }
        }
        TerminalGrid {
            rows,
            cols,
            cells,
            cursor_row: 0,
            cursor_col: 0,
            current_style: CellStyle::default_style(),
            dirty: DirtyRegion::new(rows, cols),
        }
    }

    fn scroll_up(&mut self)
        requires
            old(self).wf(),
            old(self)@.rows > 0,
        ensures
            final(self).wf(),
            final(self)@ == scrolled_up(old(self)@),
    {
        let cols = self.cols as usize;
        let n = self.cells.len();
        proof {
            lemma_row_in_grid(self.rows - 1, self.rows as int, self.cols as int);
            assert((self.rows - 1) * self.cols + self.cols == self.rows as int * self.cols as int)
                by (nonlinear_arith);
        }
        let ghost old_cells = self.cells@;
        let mut i: usize = 0;
        while i < n - cols
            invariant
                n == old_cells.len(),
                cols <= n,
                self.cells@.len() == n,
                i <= n - cols,
                self.wf(),
                self@ == (GridView { cells: self.cells@, ..old(self)@ }),
                forall|j: int| 0 <= j < i ==> #[trigger] self.cells@[j] == old_cells[j + cols],
                forall|j: int| i <= j < n ==> #[trigger] self.cells@[j] == old_cells[j],
            decreases n - cols - i,
        {
            let c = self.cells[i + cols];
            self.cells.set(i, c);
            i = i + 1;
        }
        let mut k: usize = n - cols;
        while k < n
            invariant
                n == old_cells.len(),
                cols <= n,
                n - cols <= k <= n,
                self.cells@.len() == n,
                self.wf(),
                self@ == (GridView { cells: self.cells@, ..old(self)@ }),
                forall|j: int| 0 <= j < n - cols ==> #[trigger] self.cells@[j] == old_cells[j + cols],
                forall|j: int| n - cols <= j < k ==> #[trigger] self.cells@[j] == blank(),
            decreases n - k,
        {
            self.cells.set(k, Cell::blank());
            k = k + 1;
        }
        self.dirty.mark_all();
        proof {
            assert(self.cells@ =~= old_cells.subrange(cols as int, n as int) + blank_row(
                cols as nat,
            ));
        }
    }

    fn scroll_down(&mut self)
        requires
            old(self).wf(),
            old(self)@.rows > 0 || old(self)@.cols == 0,
        ensures
            final(self).wf(),
            final(self)@ == scrolled_down(old(self)@),
    {
        let cols = self.cols as usize;
        let n = self.cells.len();
        proof {
            if self.rows > 0 {
                lemma_row_in_grid(self.rows - 1, self.rows as int, self.cols as int);
                assert((self.rows - 1) * self.cols + self.cols == self.rows as int
                    * self.cols as int) by (nonlinear_arith);
            }
        }
        let ghost old_cells = self.cells@;
        let mut i: usize = n;
        while i > cols
            invariant
                n == old_cells.len(),
                cols <= n,
                cols <= i <= n,
                self.cells@.len() == n,
                self.wf(),
                self@ == (GridView { cells: self.cells@, ..old(self)@ }),
                forall|j: int| i <= j < n ==> #[trigger] self.cells@[j] == old_cells[j - cols],
                forall|j: int| 0 <= j < i ==> #[trigger] self.cells@[j] == old_cells[j],
            decreases i,
        {
            let c = self.cells[i - 1 - cols];
            self.cells.set(i - 1, c);
            i = i - 1;
        }
        let mut k: usize = 0;
        while k < cols
            invariant
                n == old_cells.len(),
                cols <= n,
                k <= cols,
                self.cells@.len() == n,
                self.wf(),
                self@ == (GridView { cells: self.cells@, ..old(self)@ }),
                forall|j: int| cols <= j < n ==> #[trigger] self.cells@[j] == old_cells[j - cols],
                forall|j: int| 0 <= j < k ==> #[trigger] self.cells@[j] == blank(),
            decreases cols - k,
        {
            self.cells.set(k, Cell::blank());
            k = k + 1;
        }
        self.dirty.mark_all();
        proof {
            assert(self.cells@ =~= blank_row(cols as nat) + old_cells.subrange(
                0,
                n - cols,
            ));
        }
    }

    fn newline(&mut self)
        requires
            old(self).wf(),
            old(self)@.rows > 0,
        ensures
            final(self).wf(),
            final(self)@ == newline(old(self)@),
    {
        let next = self.cursor_row + 1;
        self.cursor_col = 0;
        if next >= self.rows {
            self.scroll_up();
            self.cursor_row = self.rows - 1;
        } else {
            self.cursor_row = next;
        }
        self.dirty.mark_row(self.cursor_row);
    }

    fn print_char(&mut self, ch: char)
        requires
            old(self).wf(),
        ensures
            final(self).wf(),
            final(self)@ == print_char(old(self)@, ch),
    {
        if self.cursor_row >= self.rows || self.cursor_col >= self.cols {
            return;
        }
        let i = cell_index(self.cursor_row, self.cursor_col, self.rows, self.cols);
        self.cells.set(i, Cell { ch, style: self.current_style });
        self.dirty.mark_cell(self.cursor_row, self.cursor_col);
        self.cursor_col = self.cursor_col + 1;
        if self.cursor_col >= self.cols {
            self.newline();
        }
    }

    /// Clear the whole screen: blank cells, cursor home, everything dirty.
    pub fn clear(&mut self)
        requires
            old(self).wf(),
        ensures
            final(self).wf(),
            final(self)@ == cleared(old(self)@),
    {
        let n = self.cells.len();
        let mut i: usize = 0;
        while i < n
            invariant
                n == self.cells@.len(),
                i <= n,
                self.wf(),
                self@ == (GridView { cells: self.cells@, ..old(self)@ }),
                forall|j: int| 0 <= j < i ==> #[trigger] self.cells@[j] == blank(),
            decreases n - i,
        {
            self.cells.set(i, Cell::blank());
            i = i + 1;
        }
        self.cursor_row = 0;
        self.cursor_col = 0;
        self.dirty.mark_all();
        proof {
            assert(self.cells@ =~= blank_row(n as nat));
        }
    }

    fn apply_change(&mut self, change: GridChange)
        requires
            old(self).wf(),
            change_defined(old(self)@.rows, old(self)@.cols, change),
        ensures
            final(self).wf(),
            final(self)@ == apply_change(old(self)@, change),
    {
        match change {
            GridChange::PrintChar(ch) => self.print_char(ch),
            GridChange::Newline => self.newline(),
            GridChange::CarriageReturn => {
                self.cursor_col = 0;
                self.dirty.mark_row(self.cursor_row);
            },
            GridChange::Tab => {
                let next: u32 = (self.cursor_col as u32 / 8 + 1) * 8;
                let last: u32 = self.cols as u32 - 1;
                self.cursor_col = if next <= last { next as u16 } else { last as u16 };
                self.dirty.mark_row(self.cursor_row);
            },
            GridChange::Backspace => {
                if self.cursor_col > 0 {
                    self.cursor_col = self.cursor_col - 1;
                    self.dirty.mark_cell(self.cursor_row, self.cursor_col);
                }
            },
            GridChange::ClearScreen => self.clear(),
            GridChange::CursorMove { row, col } => {
                self.cursor_row = if row <= self.rows - 1 { row } else { self.rows - 1 };
                self.cursor_col = if col <= self.cols - 1 { col } else { self.cols - 1 };
            },
            GridChange::StyleChange(style) => {
                self.current_style = style;
            },
            GridChange::ScrollUp => self.scroll_up(),
            GridChange::ScrollDown => self.scroll_down(),
        }
    }

    /// Apply changes from the VT parser, in order.
    pub fn apply_changes(&mut self, changes: Vec<GridChange>)
        requires
            old(self).wf(),
            forall|i: int|
                0 <= i < changes@.len() ==> change_defined(
                    old(self)@.rows,
                    old(self)@.cols,
                    #[trigger] changes@[i],
                ),
        ensures
            final(self).wf(),
            final(self)@ == apply_all(old(self)@, changes@),
            final(self)@.rows == old(self)@.rows,
            final(self)@.cols == old(self)@.cols,
            cursor_in_bounds(old(self)@) ==> cursor_in_bounds(final(self)@),
    {
        proof {
            if cursor_in_bounds(self@) {
                lemma_apply_all_keeps_dims_and_cursor(self@, changes@);
            }
        }
        let n = changes.len();
        let mut i: usize = 0;
        while i < n
            invariant
                n == changes@.len(),
                i <= n,
                self.wf(),
                self@.rows == old(self)@.rows,
                self@.cols == old(self)@.cols,
                forall|k: int|
                    0 <= k < changes@.len() ==> change_defined(
                        old(self)@.rows,
                        old(self)@.cols,
                        #[trigger] changes@[k],
                    ),
                self@ == apply_all(old(self)@, changes@.take(i as int)),
            decreases n - i,
        {
            proof {
                assert(changes@.take(i + 1).drop_last() =~= changes@.take(i as int));
                assert(changes@.take(i + 1).last() == changes@[i as int]);
                lemma_apply_change_keeps_dims(self@, changes@[i as int]);
            }
            self.apply_change(changes[i]);
            i = i + 1;
        }
        proof {
            assert(changes@.take(n as int) =~= changes@);
        }
    }

    /// The cell at a position, if it is inside the grid.
    pub fn get_cell(&self, row: u16, col: u16) -> (c: Option<&Cell>)
        requires
            self.wf(),
        ensures
            c == (if row < self@.rows && col < self@.cols {
                Some(&cell_at(self@, row as int, col as int))
            } else {
                None
            }),
    {
        if row >= self.rows || col >= self.cols {
            return None;
        }
        Some(&self.cells[cell_index(row, col, self.rows, self.cols)])
    }

    /// The dirty-tracking state.
    pub fn dirty_region(&self) -> (d: &DirtyRegion)
        ensures
            d@ == self@.dirty,
    {
        &self.dirty
    }

    /// Nothing dirty any more.
    pub fn clear_dirty(&mut self)
        requires
            old(self).wf(),
        ensures
            final(self).wf(),
            final(self)@ == (GridView {
                dirty: DirtyView {
                    all: false,
                    cells: Seq::new(old(self)@.dirty.cells.len(), |i: int| false),
                    ..old(self)@.dirty
                },
                ..old(self)@
            }),
    {
        self.dirty.clear();
    }

    /// (rows, cols)
    pub fn dimensions(&self) -> (d: (u16, u16))
        ensures
            d == (self@.rows, self@.cols),
    {
        (self.rows, self.cols)
    }

    /// (row, col) of the cursor
    pub fn cursor_position(&self) -> (p: (u16, u16))
        ensures
            p == (self@.cursor_row, self@.cursor_col),
    {
        (self.cursor_row, self.cursor_col)
    }

    /// Resize, keeping the overlapping top-left part of the old content.
    /// The cursor and style are kept; the whole grid becomes dirty.
    pub fn resize(&mut self, rows: u16, cols: u16)
        requires
            old(self).wf(),
        ensures
            final(self).wf(),
            final(self)@.rows == rows,
            final(self)@.cols == cols,
            final(self)@.cursor_row == old(self)@.cursor_row,
            final(self)@.cursor_col == old(self)@.cursor_col,
            final(self)@.style == old(self)@.style,
            final(self)@.dirty.all,
            final(self)@.dirty.cells == Seq::new((rows as int * cols as int) as nat, |i: int| false),
            final(self)@.cells.len() == rows as int * cols as int,
            forall|r: int, c: int|
                0 <= r < rows && 0 <= c < cols ==> #[trigger] cell_at(final(self)@, r, c)
                    == resized_cell(old(self)@.cells, old(self)@.rows, old(self)@.cols, r, c),
    {
        let ghost old_view = self@;
        let mut new_cells: Vec<Cell> = Vec::new();
        let mut r: u16 = 0;
        while r < rows
            invariant
                r <= rows,
                self@ == old_view,
                grid_wf(old_view),
                new_cells@.len() == r as int * cols as int,
                forall|rr: int, cc: int|
                    0 <= rr < r && 0 <= cc < cols ==> #[trigger] new_cells@[idx(rr, cc, cols as int)]
                        == resized_cell(old_view.cells, old_view.rows, old_view.cols, rr, cc),
            decreases rows - r,
        {
            let mut c: u16 = 0;
            while c < cols
                invariant
                    r < rows,
                    c <= cols,
                    self@ == old_view,
                    grid_wf(old_view),
                    new_cells@.len() == r as int * cols as int + c,
                    forall|rr: int, cc: int|
                        0 <= rr < r && 0 <= cc < cols ==> #[trigger] new_cells@[idx(
                            rr,
                            cc,
                            cols as int,
                        )] == resized_cell(old_view.cells, old_view.rows, old_view.cols, rr, cc),
                    forall|cc: int|
                        0 <= cc < c ==> #[trigger] new_cells@[idx(r as int, cc, cols as int)]
                            == resized_cell(old_view.cells, old_view.rows, old_view.cols, r as int, cc),
                decreases cols - c,
            {
                let cell = if r < self.rows && c < self.cols {
                    self.cells[cell_index(r, c, self.rows, self.cols)]
                } else {
                    Cell::blank()
                };
                proof {
                    lemma_idx_in_grid(r as int, c as int, rows as int, cols as int);
                    lemma_idx_in_grid(r as int, 0, rows as int, cols as int);
                }
                let ghost prev = new_cells@;
                new_cells.push(cell);
                proof {
                    assert forall|rr: int, cc: int|
                        0 <= rr < r && 0 <= cc < cols implies #[trigger] new_cells@[idx(
                            rr,
                            cc,
                            cols as int,
                        )] == resized_cell(old_view.cells, old_view.rows, old_view.cols, rr, cc) by {
                        lemma_idx_in_grid(rr, cc, r as int, cols as int);
                        assert(new_cells@[idx(rr, cc, cols as int)] == prev[idx(rr, cc, cols as int)]);
                    }
                    assert forall|cc: int|
                        0 <= cc < c + 1 implies #[trigger] new_cells@[idx(r as int, cc, cols as int)]
                            == resized_cell(old_view.cells, old_view.rows, old_view.cols, r as int, cc) by {
                        if cc < c {
                            assert(new_cells@[idx(r as int, cc, cols as int)] == prev[idx(
                                r as int,
                                cc,
                                cols as int,
                            )]);
                        }
                    }
                }
                c = c + 1;
            }
            proof {
                assert(r as int * cols as int + cols as int == (r + 1) as int * cols as int)
                    by (nonlinear_arith);
            }
            r = r + 1;
        }
        self.rows = rows;
        self.cols = cols;
        self.cells = new_cells;
        self.dirty = DirtyRegion::new(rows, cols);
        self.dirty.mark_all();
    }
}

/// Changes never alter the grid's dimensions.
pub proof fn lemma_apply_change_keeps_dims(g: GridView, c: GridChange)
    ensures
        apply_change(g, c).rows == g.rows,
        apply_change(g, c).cols == g.cols,
{
}

} // verus!

verus! {

/// The cursor is inside the grid.
pub open spec fn cursor_in_bounds(g: GridView) -> bool {
    g.cursor_row < g.rows && g.cursor_col < g.cols
}

/// Applying changes is independent of how they are batched: applying `a`
/// then `b` gives the same grid as applying `a + b` at once.
pub proof fn lemma_apply_chunks(g: GridView, a: Seq<GridChange>, b: Seq<GridChange>)
    ensures
        apply_all(apply_all(g, a), b) == apply_all(g, a + b),
    decreases b.len(),
{
    if b.len() == 0 {
        assert(a + b =~= a);
    } else {
        lemma_apply_chunks(g, a, b.drop_last());
        assert((a + b).drop_last() =~= a + b.drop_last());
        assert((a + b).last() == b.last());
    }
}

/// Once the cursor is inside a non-empty grid, every change keeps it there.
pub proof fn lemma_cursor_stays_in_bounds(g: GridView, c: GridChange)
    requires
        cursor_in_bounds(g),
    ensures
        cursor_in_bounds(apply_change(g, c)),
{
    match c {
        GridChange::Tab => {
            assert(tab_stop(g.cursor_col as int, g.cols as int) <= g.cols - 1);
        },
        _ => {},
    }
}

/// Over any sequence of changes the grid keeps its dimensions, and a cursor
/// inside the grid stays inside it.
pub proof fn lemma_apply_all_keeps_dims_and_cursor(g: GridView, cs: Seq<GridChange>)
    requires
        cursor_in_bounds(g),
    ensures
        apply_all(g, cs).rows == g.rows,
        apply_all(g, cs).cols == g.cols,
        cursor_in_bounds(apply_all(g, cs)),
    decreases cs.len(),
{
    if cs.len() > 0 {
        lemma_apply_all_keeps_dims_and_cursor(g, cs.drop_last());
        lemma_apply_change_keeps_dims(apply_all(g, cs.drop_last()), cs.last());
        lemma_cursor_stays_in_bounds(apply_all(g, cs.drop_last()), cs.last());
    }
}

/// Where each change leaves the cursor of a grid whose cursor is inside it:
/// carriage return goes to column 0 of the same row; newline to column 0 of
/// the next row (staying on the last row); backspace one column left (not
/// past column 0); tab to the next multiple of 8 (at most the last column);
/// printing one column right, or from the last column to the start of the
/// next row; a cursor move to the given position, limited to the grid;
/// clearing the screen to the top left; a style change nowhere.
pub proof fn lemma_cursor_after_change(g: GridView, ch: char, row: u16, col: u16, s: CellStyle)
    requires
        cursor_in_bounds(g),
    ensures
        apply_change(g, GridChange::CarriageReturn).cursor_row == g.cursor_row,
        apply_change(g, GridChange::CarriageReturn).cursor_col == 0,
        apply_change(g, GridChange::Newline).cursor_row == (if g.cursor_row + 1 < g.rows {
            g.cursor_row + 1
        } else {
            g.rows - 1
        }),
        apply_change(g, GridChange::Newline).cursor_col == 0,
        apply_change(g, GridChange::Backspace).cursor_row == g.cursor_row,
        apply_change(g, GridChange::Backspace).cursor_col == (if g.cursor_col > 0 {
            g.cursor_col - 1
        } else {
            0
        }),
        apply_change(g, GridChange::Tab).cursor_row == g.cursor_row,
        apply_change(g, GridChange::Tab).cursor_col == (if (g.cursor_col / 8 + 1) * 8 < g.cols {
            (g.cursor_col / 8 + 1) * 8
        } else {
            g.cols - 1
        }),
        g.cursor_col + 1 < g.cols ==> apply_change(g, GridChange::PrintChar(ch)).cursor_row
            == g.cursor_row && apply_change(g, GridChange::PrintChar(ch)).cursor_col == g.cursor_col
            + 1,
        g.cursor_col + 1 == g.cols ==> apply_change(g, GridChange::PrintChar(ch)).cursor_col == 0
            && apply_change(g, GridChange::PrintChar(ch)).cursor_row == (if g.cursor_row + 1
            < g.rows {
            g.cursor_row + 1
        } else {
            g.rows - 1
        }),
        apply_change(g, GridChange::CursorMove { row, col }).cursor_row == (if row < g.rows {
            row as int
        } else {
            g.rows - 1
        }),
        apply_change(g, GridChange::CursorMove { row, col }).cursor_col == (if col < g.cols {
            col as int
        } else {
            g.cols - 1
        }),
        apply_change(g, GridChange::ClearScreen).cursor_row == 0,
        apply_change(g, GridChange::ClearScreen).cursor_col == 0,
        apply_change(g, GridChange::StyleChange(s)).cursor_row == g.cursor_row,
        apply_change(g, GridChange::StyleChange(s)).cursor_col == g.cursor_col,
        apply_change(g, GridChange::StyleChange(s)).style == s,
{
}

/// Printing a character that does not reach the last column marks exactly
/// the cell under the cursor dirty, writes it, and moves one column right.
pub proof fn lemma_print_marks_only_cursor_cell(g: GridView, ch: char, r: int, c: int)
    requires
        grid_wf(g),
        cursor_in_bounds(g),
        g.cursor_col + 1 < g.cols,
    ensures
        dirty_at(print_char(g, ch).dirty, r, c) == (dirty_at(g.dirty, r, c) || (r
            == g.cursor_row && c == g.cursor_col)),
        cell_at(print_char(g, ch), g.cursor_row as int, g.cursor_col as int) == (Cell {
            ch,
            style: g.style,
        }),
        print_char(g, ch).cursor_row == g.cursor_row,
        print_char(g, ch).cursor_col == g.cursor_col + 1,
{
    lemma_idx_in_grid(g.cursor_row as int, g.cursor_col as int, g.rows as int, g.cols as int);
    if 0 <= r < g.rows && 0 <= c < g.cols {
        lemma_idx_in_grid(r, c, g.rows as int, g.cols as int);
        if idx(r, c, g.cols as int) == idx(g.cursor_row as int, g.cursor_col as int, g.cols as int) {
            crate::grid_index::lemma_idx_injective(
                r,
                c,
                g.cursor_row as int,
                g.cursor_col as int,
                g.cols as int,
            );
        }
    }
}

} // verus!
