//! Rockets and particles placed on the character grid.

use vstd::prelude::*;
use crate::cell::Cell;
use crate::grid::lemma_cell_in_grid;

verus! {

/// The glyph of a rising rocket: a bold white triangle on black.
pub open spec fn rocket_cell() -> Cell {
    Cell { ch: '▲', fg: (255u8, 255u8, 255u8), bg: (0u8, 0u8, 0u8), bold: true }
}

/// Draws a rocket at cell `(cx, cy)` when that cell is inside the grid;
/// nothing else changes.
pub fn draw_rocket(grid: &mut Vec<Cell>, cols: usize, rows: usize, cx: usize, cy: usize)
    requires
        cols * rows <= old(grid).len(),
    ensures
        final(grid)@ == if cx < cols && cy < rows {
            old(grid)@.update(cy * cols + cx, rocket_cell())
        } else {
            old(grid)@
        },
        cx < cols && cy < rows ==> final(grid)@[cy * cols + cx] == (Cell {
            ch: '▲',
            fg: (255u8, 255u8, 255u8),
            bg: (0u8, 0u8, 0u8),
            bold: true,
        }),
{
    if cx < cols && cy < rows {
        proof {
            lemma_cell_in_grid(cols as int, rows as int, cx as int, cy as int);
        }
        grid.set(cy * cols + cx, Cell { ch: '▲', fg: (255, 255, 255), bg: (0, 0, 0), bold: true });
    }
}

/// Glyphs a spark may replace: blanks and the streaks of flares.
pub open spec fn spark_may_replace(ch: char) -> bool {
    ch == ' ' || ch == '─' || ch == '│' || ch == '/' || ch == '\\'
}

/// Whether a particle at cell `(cx, cy)` is drawn: the cell is inside the
/// grid; a spark must be at or above the skyline of its column and may only
/// replace a blank or a flare streak, while smoke is drawn everywhere.
pub open spec fn particle_drawn(
    grid: Seq<Cell>,
    skyline: Seq<usize>,
    cols: int,
    rows: int,
    cx: int,
    cy: int,
    is_smoke: bool,
) -> bool {
    &&& cx < cols
    &&& cy < rows
    &&& is_smoke || rows - 1 - cy >= skyline[cx]
    &&& is_smoke || spark_may_replace(grid[cy * cols + cx].ch)
}

/// Draws a particle's cell at `(cx, cy)` when [`particle_drawn`] holds;
/// nothing else changes.
pub fn draw_particle(
    grid: &mut Vec<Cell>,
    skyline: &Vec<usize>,
    cols: usize,
    rows: usize,
    cx: usize,
    cy: usize,
    cell: Cell,
    is_smoke: bool,
)
    requires
        cols * rows <= old(grid).len(),
        cols <= skyline.len(),
    ensures
        final(grid)@ == if particle_drawn(
            old(grid)@,
            skyline@,
            cols as int,
            rows as int,
            cx as int,
            cy as int,
            is_smoke,
        ) {
            old(grid)@.update(cy * cols + cx, cell)
        } else {
            old(grid)@
        },
        final(grid).len() == old(grid).len(),
        forall|i: int|
            0 <= i < old(grid).len() && i != cy * cols + cx ==> #[trigger] final(grid)@[i]
                == old(grid)@[i],
        !(cx < cols && cy < rows) ==> final(grid)@ == old(grid)@,
        !is_smoke && cx < cols && cy < rows && rows - 1 - cy < skyline@[cx as int] ==> final(grid)@
            == old(grid)@,
        !is_smoke && cx < cols && cy < rows && ({
            let ch = old(grid)@[cy * cols + cx].ch;
            ch != ' ' && ch != '─' && ch != '│' && ch != '/' && ch != '\\'
        }) ==> final(grid)@ == old(grid)@,
        is_smoke && cx < cols && cy < rows ==> final(grid)@[cy * cols + cx] == cell,
{
    proof {
        lemma_particle_drawn_exactly(old(grid)@, skyline@, cols as int, rows as int, cx as int, cy as int, is_smoke);
    }
    if cx < cols && cy < rows {
        proof {
            lemma_cell_in_grid(cols as int, rows as int, cx as int, cy as int);
        }
        let height_from_bottom = rows - 1 - cy;
        if height_from_bottom >= skyline[cx] || is_smoke {
            let idx = cy * cols + cx;
            let current = grid[idx].ch;
            if is_smoke || current == ' ' || current == '─' || current == '│' || current == '/'
                || current == '\\' {
                grid.set(idx, cell);
            }
        }
    }
}

/// When a particle is drawn: always when it is smoke inside the grid; a
/// spark only inside the grid, at or above the skyline of its column
/// (`rows - 1 - cy >= skyline[cx]`), and on a cell holding a blank, a dash
/// `─`, a bar `│`, a slash `/` or a backslash `\` — any other glyph (a star,
/// a window, a starburst, the logo) keeps its cell.
pub proof fn lemma_particle_drawn_exactly(
    grid: Seq<Cell>,
    skyline: Seq<usize>,
    cols: int,
    rows: int,
    cx: int,
    cy: int,
    is_smoke: bool,
)
    ensures
        particle_drawn(grid, skyline, cols, rows, cx, cy, is_smoke) <==> {
            &&& cx < cols
            &&& cy < rows
            &&& is_smoke || {
                let ch = grid[cy * cols + cx].ch;
                &&& rows - 1 - cy >= skyline[cx]
                &&& ch == ' ' || ch == '─' || ch == '│' || ch == '/' || ch == '\\'
            }
        },
{
}

} // verus!
