//! Lens flares drawn onto the character grid: the white starburst with its
//! horizontal and vertical streaks at the origin of a fresh explosion, and the
//! anamorphic streaks around a highly excited background star.

use vstd::prelude::*;
use crate::cell::{Cell, Rgb};
use crate::color::{
    blend_explosion_flare_h_color, blend_explosion_flare_v_color, blend_horizontal_flare_color,
    blend_vertical_flare_color, explosion_streak_h, explosion_streak_v, horizontal_flare,
    vertical_flare,
};
use crate::grid::{col_of, dist, lemma_cell_in_grid, lemma_index_of_cell, row_of};

verus! {

/// Reach of an explosion's horizontal streak: cells `1..16` away.
pub const EXPLOSION_H_LEN: usize = 16;
/// Fade lost per cell along an explosion's horizontal streak (`150 / 16`).
pub const EXPLOSION_H_PITCH: usize = 9;
/// Reach of an explosion's vertical streak: cells `1..6` away.
pub const EXPLOSION_V_LEN: usize = 6;
/// Fade lost per cell along an explosion's vertical streak (`100 / 6`).
pub const EXPLOSION_V_PITCH: usize = 16;
/// An explosion streak cell is drawn only while its fade exceeds this.
pub const EXPLOSION_MIN_FADE: u8 = 15;

/// Strength of a streak `step` cells from its centre: `alpha` less `pitch`
/// per cell, never below zero.
pub open spec fn streak_fade(alpha: u8, pitch: int, step: int) -> int {
    if alpha >= pitch * step { alpha - pitch * step } else { 0 }
}

/// The starburst glyph at an explosion's origin; the background is kept.
pub open spec fn starburst(cell: Cell) -> Cell {
    Cell { ch: '✸', fg: (255u8, 255u8, 255u8), bg: cell.bg, bold: true }
}

/// A cell crossed by an explosion's horizontal streak: its colour is
/// brightened and a blank becomes a dash.
pub open spec fn explosion_h_cell(cell: Cell, fade: u8, color: Rgb) -> Cell {
    Cell {
        ch: if cell.ch == ' ' { '─' } else { cell.ch },
        fg: explosion_streak_h(cell.fg, fade, color),
        bg: cell.bg,
        bold: cell.bold,
    }
}

/// A cell crossed by an explosion's vertical streak: its colour is brightened
/// and a blank becomes a bar.
pub open spec fn explosion_v_cell(cell: Cell, fade: u8, color: Rgb) -> Cell {
    Cell {
        ch: if cell.ch == ' ' { '│' } else { cell.ch },
        fg: explosion_streak_v(cell.fg, fade, color),
        bg: cell.bg,
        bold: cell.bold,
    }
}

/// Cell `(x, y)` after the starburst and the streaks reaching fewer than
/// `h_lim` cells sideways and `v_lim` cells up and down have been drawn.
pub open spec fn explosion_flare_partial(
    cell: Cell,
    x: int,
    y: int,
    sx: int,
    sy: int,
    rows: int,
    h_alpha: u8,
    v_alpha: u8,
    color: Rgb,
    h_lim: int,
    v_lim: int,
) -> Cell {
    let hf = streak_fade(h_alpha, EXPLOSION_H_PITCH as int, dist(x, sx));
    let vf = streak_fade(v_alpha, EXPLOSION_V_PITCH as int, dist(y, sy));
    if x == sx && y == sy {
        starburst(cell)
    } else if y == sy && 1 <= dist(x, sx) < h_lim && hf > EXPLOSION_MIN_FADE {
        explosion_h_cell(cell, hf as u8, color)
    } else if x == sx && y < rows && 1 <= dist(y, sy) < v_lim && vf > EXPLOSION_MIN_FADE {
        explosion_v_cell(cell, vf as u8, color)
    } else {
        cell
    }
}

/// Cell `(x, y)` of a `rows`-high grid once the flare of an explosion at
/// `(sx, sy)` has been drawn.
pub open spec fn explosion_flare_cell(
    cell: Cell,
    x: int,
    y: int,
    sx: int,
    sy: int,
    rows: int,
    h_alpha: u8,
    v_alpha: u8,
    color: Rgb,
) -> Cell {
    explosion_flare_partial(
        cell,
        x,
        y,
        sx,
        sy,
        rows,
        h_alpha,
        v_alpha,
        color,
        EXPLOSION_H_LEN as int,
        EXPLOSION_V_LEN as int,
    )
}

fn explosion_h_cell_of(cell: Cell, fade: u8, color: (u8, u8, u8)) -> (r: Cell)
    ensures
        r == explosion_h_cell(cell, fade, color),
{
    Cell {
        ch: if cell.ch == ' ' { '─' } else { cell.ch },
        fg: blend_explosion_flare_h_color(cell.fg, fade, color),
        bg: cell.bg,
        bold: cell.bold,
    }
}

fn explosion_v_cell_of(cell: Cell, fade: u8, color: (u8, u8, u8)) -> (r: Cell)
    ensures
        r == explosion_v_cell(cell, fade, color),
{
    Cell {
        ch: if cell.ch == ' ' { '│' } else { cell.ch },
        fg: blend_explosion_flare_v_color(cell.fg, fade, color),
        bg: cell.bg,
        bold: cell.bold,
    }
}

/// Draws the flare of a fresh explosion centred on cell `(sx, sy)` of a
/// `cols` by `rows` grid: a white starburst at the centre (keeping its
/// background), then for each distance `d` in `1..16` to the left and right a
/// horizontal streak cell of strength `h_alpha - 9 d`, and for each distance
/// `d` in `1..6` above and below a vertical streak cell of strength
/// `v_alpha - 16 d`; a streak cell is drawn only where its strength exceeds 15
/// and it lies inside the grid.
pub fn draw_explosion_flare(
    grid: &mut Vec<Cell>,
    cols: usize,
    rows: usize,
    sx: usize,
    sy: usize,
    h_alpha: u8,
    v_alpha: u8,
    color: (u8, u8, u8),
)
    requires
        sx < cols,
        sy < rows,
        cols * rows <= old(grid).len(),
    ensures
        final(grid).len() == old(grid).len(),
        forall|i: int|
            0 <= i < old(grid).len() ==> #[trigger] final(grid)@[i] == explosion_flare_cell(
                old(grid)@[i],
                col_of(i, cols as int),
                row_of(i, cols as int),
                sx as int,
                sy as int,
                rows as int,
                h_alpha,
                v_alpha,
                color,
            ),
        forall|i: int|
            0 <= i < old(grid).len() ==> (#[trigger] final(grid)@[i]).bg == old(grid)@[i].bg,
        forall|i: int|
            0 <= i < old(grid).len() && !(col_of(i, cols as int) == sx && row_of(i, cols as int)
                == sy) ==> {
                let (a, b) = (old(grid)@[i], #[trigger] final(grid)@[i]);
                &&& b.bold == a.bold
                &&& b.ch == a.ch || (a.ch == ' ' && (b.ch == '─' || b.ch == '│'))
            },
        final(grid)@[sy * cols + sx].ch == '✸',
{
    let ghost g_in = grid@;
    proof {
        lemma_cell_in_grid(cols as int, rows as int, sx as int, sy as int);
    }
    let center = sy * cols + sx;
    let old_center = grid[center];
    grid.set(center, Cell { ch: '✸', fg: (255, 255, 255), bg: old_center.bg, bold: true });
    assert forall|i: int| 0 <= i < grid.len() implies #[trigger] grid@[i] == explosion_flare_partial(
        g_in[i],
        col_of(i, cols as int),
        row_of(i, cols as int),
        sx as int,
        sy as int,
        rows as int,
        h_alpha,
        v_alpha,
        color,
        1,
        1,
    ) by {
        lemma_index_of_cell(i, cols as int, sx as int, sy as int);
    }

    let mut dx: usize = 1;
    while dx < EXPLOSION_H_LEN
        invariant
            1 <= dx <= EXPLOSION_H_LEN,
            sx < cols,
            sy < rows,
            cols * rows <= grid.len(),
            grid.len() == g_in.len(),
            forall|i: int|
                0 <= i < grid.len() ==> #[trigger] grid@[i] == explosion_flare_partial(
                    g_in[i],
                    col_of(i, cols as int),
                    row_of(i, cols as int),
                    sx as int,
                    sy as int,
                    rows as int,
                    h_alpha,
                    v_alpha,
                    color,
                    dx as int,
                    1,
                ),
        decreases EXPLOSION_H_LEN - dx,
    {
        let ghost g0 = grid@;
        let fade = h_alpha.saturating_sub((dx * EXPLOSION_H_PITCH) as u8);
        let right = dx < cols - sx;
        let left = sx >= dx;
        if fade > EXPLOSION_MIN_FADE {
            if right {
                proof {
                    lemma_cell_in_grid(cols as int, rows as int, (sx + dx) as int, sy as int);
                }
                let k = sy * cols + (sx + dx);
                let c = grid[k];
                grid.set(k, explosion_h_cell_of(c, fade, color));
            }
            if left {
                proof {
                    lemma_cell_in_grid(cols as int, rows as int, (sx - dx) as int, sy as int);
                }
                let k = sy * cols + (sx - dx);
                let c = grid[k];
                grid.set(k, explosion_h_cell_of(c, fade, color));
            }
        }
        assert forall|i: int| 0 <= i < grid.len() implies #[trigger] grid@[i] == explosion_flare_partial(
            g_in[i],
            col_of(i, cols as int),
            row_of(i, cols as int),
            sx as int,
            sy as int,
            rows as int,
            h_alpha,
            v_alpha,
            color,
            dx + 1,
            1,
        ) by {
            lemma_index_of_cell(i, cols as int, sx as int, sy as int);
            if right {
                lemma_index_of_cell(i, cols as int, (sx + dx) as int, sy as int);
            }
            if left {
                lemma_index_of_cell(i, cols as int, (sx - dx) as int, sy as int);
            }
            assert(0 <= col_of(i, cols as int) < cols);
        }
        dx += 1;
    }

    let mut dy: usize = 1;
    while dy < EXPLOSION_V_LEN
        invariant
            1 <= dy <= EXPLOSION_V_LEN,
            sx < cols,
            sy < rows,
            cols * rows <= grid.len(),
            grid.len() == g_in.len(),
            forall|i: int|
                0 <= i < grid.len() ==> #[trigger] grid@[i] == explosion_flare_partial(
                    g_in[i],
                    col_of(i, cols as int),
                    row_of(i, cols as int),
                    sx as int,
                    sy as int,
                    rows as int,
                    h_alpha,
                    v_alpha,
                    color,
                    EXPLOSION_H_LEN as int,
                    dy as int,
                ),
        decreases EXPLOSION_V_LEN - dy,
    {
        let fade = v_alpha.saturating_sub((dy * EXPLOSION_V_PITCH) as u8);
        let down = dy < rows - sy;
        let up = sy >= dy;
        if fade > EXPLOSION_MIN_FADE {
            if down {
                proof {
                    lemma_cell_in_grid(cols as int, rows as int, sx as int, (sy + dy) as int);
                }
                let k = (sy + dy) * cols + sx;
                let c = grid[k];
                grid.set(k, explosion_v_cell_of(c, fade, color));
            }
            if up {
                proof {
                    lemma_cell_in_grid(cols as int, rows as int, sx as int, (sy - dy) as int);
                }
                let k = (sy - dy) * cols + sx;
                let c = grid[k];
                grid.set(k, explosion_v_cell_of(c, fade, color));
            }
        }
        assert forall|i: int| 0 <= i < grid.len() implies #[trigger] grid@[i] == explosion_flare_partial(
            g_in[i],
            col_of(i, cols as int),
            row_of(i, cols as int),
            sx as int,
            sy as int,
            rows as int,
            h_alpha,
            v_alpha,
            color,
            EXPLOSION_H_LEN as int,
            dy + 1,
        ) by {
            lemma_index_of_cell(i, cols as int, sx as int, sy as int);
            if down {
                lemma_index_of_cell(i, cols as int, sx as int, (sy + dy) as int);
            }
            if up {
                lemma_index_of_cell(i, cols as int, sx as int, (sy - dy) as int);
            }
        }
        dy += 1;
    }
    proof {
        assert forall|i: int| 0 <= i < grid.len() implies {
            &&& (#[trigger] grid@[i]).bg == g_in[i].bg
            &&& !(col_of(i, cols as int) == sx && row_of(i, cols as int) == sy) ==> {
                &&& grid@[i].bold == g_in[i].bold
                &&& grid@[i].ch == g_in[i].ch || (g_in[i].ch == ' ' && (grid@[i].ch == '─'
                    || grid@[i].ch == '│'))
            }
        } by {
            lemma_explosion_flare_effect(
                g_in[i],
                col_of(i, cols as int),
                row_of(i, cols as int),
                sx as int,
                sy as int,
                rows as int,
                h_alpha,
                v_alpha,
                color,
            );
        }
        let c = (sy * cols + sx) as int;
        lemma_index_of_cell(c, cols as int, sx as int, sy as int);
        lemma_explosion_flare_effect(
            g_in[c],
            sx as int,
            sy as int,
            sx as int,
            sy as int,
            rows as int,
            h_alpha,
            v_alpha,
            color,
        );
    }
}


/// Reach of a star's horizontal flare: cells `1..12` away.
pub const STAR_H_LEN: usize = 12;
/// Fade lost per cell along a star's horizontal flare (`110 / 12`).
pub const STAR_H_PITCH: usize = 9;
/// Reach of a star's vertical flare: cells `1..5` away.
pub const STAR_V_LEN: usize = 5;
/// Fade lost per cell along a star's vertical flare (`80 / 5`).
pub const STAR_V_PITCH: usize = 16;
/// A star flare cell is drawn only while its fade exceeds this.
pub const STAR_MIN_FADE: u8 = 10;

/// Height of grid row `y` above the bottom row of a `rows`-high grid.
pub open spec fn height_above_bottom(rows: int, y: int) -> int {
    rows - 1 - y
}

/// A cell taken by a star's horizontal flare.
pub open spec fn star_h_cell(cell: Cell, fade: u8, flare: Rgb) -> Cell {
    Cell { ch: '─', fg: horizontal_flare(fade, flare), bg: cell.bg, bold: cell.bold }
}

/// A cell taken by a star's vertical flare.
pub open spec fn star_v_cell(cell: Cell, fade: u8, flare: Rgb) -> Cell {
    Cell { ch: '│', fg: vertical_flare(fade, flare), bg: cell.bg, bold: cell.bold }
}

/// Cell `(x, y)` after the flare streaks of a star at `(sx, sy)` reaching
/// fewer than `h_lim` cells sideways and `v_lim` cells up and down have been
/// drawn.  A streak takes only blank cells or cells of its own streak glyph,
/// and only at or above the skyline of the column it is drawn in.
pub open spec fn star_flare_partial(
    cell: Cell,
    x: int,
    y: int,
    sx: int,
    sy: int,
    rows: int,
    skyline: Seq<usize>,
    h_alpha: u8,
    v_alpha: u8,
    flare: Rgb,
    h_lim: int,
    v_lim: int,
) -> Cell {
    let hf = streak_fade(h_alpha, STAR_H_PITCH as int, dist(x, sx));
    let vf = streak_fade(v_alpha, STAR_V_PITCH as int, dist(y, sy));
    if y == sy && 1 <= dist(x, sx) < h_lim && hf > STAR_MIN_FADE
        && height_above_bottom(rows, sy) >= skyline[x] && (cell.ch == ' ' || cell.ch == '─') {
        star_h_cell(cell, hf as u8, flare)
    } else if x == sx && y < rows && 1 <= dist(y, sy) < v_lim && vf > STAR_MIN_FADE
        && height_above_bottom(rows, y) >= skyline[sx] && (cell.ch == ' ' || cell.ch == '│') {
        star_v_cell(cell, vf as u8, flare)
    } else {
        cell
    }
}

/// Cell `(x, y)` once the full flare of a star at `(sx, sy)` has been drawn.
pub open spec fn star_flare_cell(
    cell: Cell,
    x: int,
    y: int,
    sx: int,
    sy: int,
    rows: int,
    skyline: Seq<usize>,
    h_alpha: u8,
    v_alpha: u8,
    flare: Rgb,
) -> Cell {
    star_flare_partial(
        cell,
        x,
        y,
        sx,
        sy,
        rows,
        skyline,
        h_alpha,
        v_alpha,
        flare,
        STAR_H_LEN as int,
        STAR_V_LEN as int,
    )
}

/// Draws the lens flare of an excited star at cell `(sx, sy)` of a `cols` by
/// `rows` grid whose city skyline has height `skyline[x]` at column `x`: for
/// each distance `d` in `1..12` to the left and right a horizontal streak cell
/// of strength `h_alpha - 9 d`, and for each distance `d` in `1..5` above and
/// below a vertical streak cell of strength `v_alpha - 16 d`.  A streak cell
/// is drawn only where its strength exceeds 10, it lies inside the grid, it is
/// not below the skyline, and it is blank or already holds that streak's glyph.
pub fn draw_star_flare(
    grid: &mut Vec<Cell>,
    skyline: &Vec<usize>,
    cols: usize,
    rows: usize,
    sx: usize,
    sy: usize,
    h_alpha: u8,
    v_alpha: u8,
    flare_color: (u8, u8, u8),
)
    requires
        sx < cols,
        sy < rows,
        cols * rows <= old(grid).len(),
        cols <= skyline.len(),
    ensures
        final(grid).len() == old(grid).len(),
        forall|i: int|
            0 <= i < old(grid).len() ==> #[trigger] final(grid)@[i] == star_flare_cell(
                old(grid)@[i],
                col_of(i, cols as int),
                row_of(i, cols as int),
                sx as int,
                sy as int,
                rows as int,
                skyline@,
                h_alpha,
                v_alpha,
                flare_color,
            ),
        forall|i: int|
            0 <= i < old(grid).len() ==> {
                let (a, b) = (old(grid)@[i], #[trigger] final(grid)@[i]);
                &&& b.bg == a.bg
                &&& b.bold == a.bold
                &&& a.ch != ' ' && a.ch != '─' && a.ch != '│' ==> b == a
                &&& b != a ==> b.ch == '─' || b.ch == '│'
            },
{
    let ghost g_in = grid@;
    let mut dx: usize = 1;
    while dx < STAR_H_LEN
        invariant
            1 <= dx <= STAR_H_LEN,
            sx < cols,
            sy < rows,
            cols * rows <= grid.len(),
            cols <= skyline.len(),
            grid.len() == g_in.len(),
            forall|i: int|
                0 <= i < grid.len() ==> #[trigger] grid@[i] == star_flare_partial(
                    g_in[i],
                    col_of(i, cols as int),
                    row_of(i, cols as int),
                    sx as int,
                    sy as int,
                    rows as int,
                    skyline@,
                    h_alpha,
                    v_alpha,
                    flare_color,
                    dx as int,
                    1,
                ),
        decreases STAR_H_LEN - dx,
    {
        let fade = h_alpha.saturating_sub((dx * STAR_H_PITCH) as u8);
        let h_test = rows - 1 - sy;
        let right = dx < cols - sx;
        let left = sx >= dx;
        if fade > STAR_MIN_FADE {
            if right {
                proof {
                    lemma_cell_in_grid(cols as int, rows as int, (sx + dx) as int, sy as int);
                }
                let k = sy * cols + (sx + dx);
                let c = grid[k];
                if h_test >= skyline[sx + dx] && (c.ch == ' ' || c.ch == '─') {
                    grid.set(
                        k,
                        Cell {
                            ch: '─',
                            fg: blend_horizontal_flare_color(fade, flare_color),
                            bg: c.bg,
                            bold: c.bold,
                        },
                    );
                }
            }
            if left {
                proof {
                    lemma_cell_in_grid(cols as int, rows as int, (sx - dx) as int, sy as int);
                }
                let k = sy * cols + (sx - dx);
                let c = grid[k];
                if h_test >= skyline[sx - dx] && (c.ch == ' ' || c.ch == '─') {
                    grid.set(
                        k,
                        Cell {
                            ch: '─',
                            fg: blend_horizontal_flare_color(fade, flare_color),
                            bg: c.bg,
                            bold: c.bold,
                        },
                    );
                }
            }
        }
        assert forall|i: int| 0 <= i < grid.len() implies #[trigger] grid@[i] == star_flare_partial(
            g_in[i],
            col_of(i, cols as int),
            row_of(i, cols as int),
            sx as int,
            sy as int,
            rows as int,
            skyline@,
            h_alpha,
            v_alpha,
            flare_color,
            dx + 1,
            1,
        ) by {
            if right {
                lemma_index_of_cell(i, cols as int, (sx + dx) as int, sy as int);
            }
            if left {
                lemma_index_of_cell(i, cols as int, (sx - dx) as int, sy as int);
            }
            assert(0 <= col_of(i, cols as int) < cols);
        }
        dx += 1;
    }

    let mut dy: usize = 1;
    while dy < STAR_V_LEN
        invariant
            1 <= dy <= STAR_V_LEN,
            sx < cols,
            sy < rows,
            cols * rows <= grid.len(),
            cols <= skyline.len(),
            grid.len() == g_in.len(),
            forall|i: int|
                0 <= i < grid.len() ==> #[trigger] grid@[i] == star_flare_partial(
                    g_in[i],
                    col_of(i, cols as int),
                    row_of(i, cols as int),
                    sx as int,
                    sy as int,
                    rows as int,
                    skyline@,
                    h_alpha,
                    v_alpha,
                    flare_color,
                    STAR_H_LEN as int,
                    dy as int,
                ),
        decreases STAR_V_LEN - dy,
    {
        let fade = v_alpha.saturating_sub((dy * STAR_V_PITCH) as u8);
        let down = dy < rows - sy;
        let up = sy >= dy;
        if fade > STAR_MIN_FADE {
            if down {
                proof {
                    lemma_cell_in_grid(cols as int, rows as int, sx as int, (sy + dy) as int);
                }
                let k = (sy + dy) * cols + sx;
                let c = grid[k];
                let h_test = rows - 1 - (sy + dy);
                if h_test >= skyline[sx] && (c.ch == ' ' || c.ch == '│') {
                    grid.set(
                        k,
                        Cell {
                            ch: '│',
                            fg: blend_vertical_flare_color(fade, flare_color),
                            bg: c.bg,
                            bold: c.bold,
                        },
                    );
                }
            }
            if up {
                proof {
                    lemma_cell_in_grid(cols as int, rows as int, sx as int, (sy - dy) as int);
                }
                let k = (sy - dy) * cols + sx;
                let c = grid[k];
                let h_test = rows - 1 - (sy - dy);
                if h_test >= skyline[sx] && (c.ch == ' ' || c.ch == '│') {
                    grid.set(
                        k,
                        Cell {
                            ch: '│',
                            fg: blend_vertical_flare_color(fade, flare_color),
                            bg: c.bg,
                            bold: c.bold,
                        },
                    );
                }
            }
        }
        assert forall|i: int| 0 <= i < grid.len() implies #[trigger] grid@[i] == star_flare_partial(
            g_in[i],
            col_of(i, cols as int),
            row_of(i, cols as int),
            sx as int,
            sy as int,
            rows as int,
            skyline@,
            h_alpha,
            v_alpha,
            flare_color,
            STAR_H_LEN as int,
            dy + 1,
        ) by {
            lemma_index_of_cell(i, cols as int, sx as int, sy as int);
            if down {
                lemma_index_of_cell(i, cols as int, sx as int, (sy + dy) as int);
            }
            if up {
                lemma_index_of_cell(i, cols as int, sx as int, (sy - dy) as int);
            }
        }
        dy += 1;
    }
    proof {
        assert forall|i: int| 0 <= i < grid.len() implies {
            let (a, b) = (g_in[i], #[trigger] grid@[i]);
            &&& b.bg == a.bg
            &&& b.bold == a.bold
            &&& a.ch != ' ' && a.ch != '─' && a.ch != '│' ==> b == a
            &&& b != a ==> b.ch == '─' || b.ch == '│'
        } by {
            lemma_star_flare_effect(
                g_in[i],
                col_of(i, cols as int),
                row_of(i, cols as int),
                sx as int,
                sy as int,
                rows as int,
                skyline@,
                h_alpha,
                v_alpha,
                flare_color,
            );
        }
    }
}

/// An explosion flare only touches the row and the column through its
/// centre, and it keeps every cell's background.
pub proof fn lemma_explosion_flare_cross(
    cell: Cell,
    x: int,
    y: int,
    sx: int,
    sy: int,
    rows: int,
    h_alpha: u8,
    v_alpha: u8,
    color: Rgb,
)
    ensures
        explosion_flare_cell(cell, x, y, sx, sy, rows, h_alpha, v_alpha, color).bg == cell.bg,
        x != sx && y != sy ==> explosion_flare_cell(cell, x, y, sx, sy, rows, h_alpha, v_alpha, color)
            == cell,
{
}

/// A star flare never draws below the skyline: a cell lower than the
/// building of its column is left as it was.  Nor does it touch cells off the
/// row and column of the star, or change any background or weight.
pub proof fn lemma_star_flare_respects_skyline(
    cell: Cell,
    x: int,
    y: int,
    sx: int,
    sy: int,
    rows: int,
    skyline: Seq<usize>,
    h_alpha: u8,
    v_alpha: u8,
    flare: Rgb,
)
    ensures
        height_above_bottom(rows, y) < skyline[x] ==> star_flare_cell(
            cell,
            x,
            y,
            sx,
            sy,
            rows,
            skyline,
            h_alpha,
            v_alpha,
            flare,
        ) == cell,
        x != sx && y != sy ==> star_flare_cell(cell, x, y, sx, sy, rows, skyline, h_alpha, v_alpha, flare)
            == cell,
        star_flare_cell(cell, x, y, sx, sy, rows, skyline, h_alpha, v_alpha, flare).bg == cell.bg,
        star_flare_cell(cell, x, y, sx, sy, rows, skyline, h_alpha, v_alpha, flare).bold == cell.bold,
{
}

/// What an explosion flare does to one cell `(x, y)`: the centre becomes a
/// bold white `✸`; every other cell keeps its weight and is never darkened;
/// its glyph is kept unless it was blank, in which case it may become a dash
/// `─` on the centre's row or a bar `│` on the centre's column; every cell
/// keeps its background; and only cells at most 15 columns along the
/// centre's row, or at most 5 rows (inside the grid) along its column, change.
/// A streak cell `d` away changes only while the streak's strength less 9 d
/// (sideways) or 16 d (up and down) stays above 15, and a blank cell within
/// that reach always takes the streak's glyph.
pub proof fn lemma_explosion_flare_effect(
    cell: Cell,
    x: int,
    y: int,
    sx: int,
    sy: int,
    rows: int,
    h_alpha: u8,
    v_alpha: u8,
    color: Rgb,
)
    ensures
        ({
            let r = explosion_flare_cell(cell, x, y, sx, sy, rows, h_alpha, v_alpha, color);
            &&& r.bg == cell.bg
            &&& x == sx && y == sy ==> r.ch == '✸' && r.fg == (255u8, 255u8, 255u8) && r.bold
            &&& !(x == sx && y == sy) ==> {
                &&& r.bold == cell.bold
                &&& r.fg.0 >= cell.fg.0 && r.fg.1 >= cell.fg.1 && r.fg.2 >= cell.fg.2
                &&& r.ch == cell.ch || (cell.ch == ' ' && y == sy && r.ch == '─') || (cell.ch
                    == ' ' && x == sx && r.ch == '│')
            }
            &&& r != cell ==> (x == sx && y == sy) || (y == sy && x != sx && x - sx <= 15 && sx - x
                <= 15) || (x == sx && y != sy && y < rows && y - sy <= 5 && sy - y <= 5)
            &&& y == sy && x != sx && r != cell ==> h_alpha > 15 + 9 * dist(x, sx)
            &&& x == sx && y != sy && r != cell ==> v_alpha > 15 + 16 * dist(y, sy)
            &&& y == sy && 1 <= dist(x, sx) <= 15 && h_alpha > 15 + 9 * dist(x, sx) && cell.ch == ' '
                ==> r.ch == '─'
            &&& x == sx && 0 <= y < rows && 1 <= dist(y, sy) <= 5 && v_alpha > 15 + 16 * dist(y, sy)
                && cell.ch == ' ' ==> r.ch == '│'
        }),
{
    let hf = streak_fade(h_alpha, EXPLOSION_H_PITCH as int, dist(x, sx));
    let vf = streak_fade(v_alpha, EXPLOSION_V_PITCH as int, dist(y, sy));
    crate::color::lemma_explosion_streak_never_darkens(cell.fg, hf as u8, color);
    crate::color::lemma_explosion_streak_never_darkens(cell.fg, vf as u8, color);
}

/// What a star flare does to one cell `(x, y)`: a cell holding anything but
/// a blank, a dash `─` or a bar `│` is left as it was; a changed cell lies
/// on the star's row at most 11 columns away, held a blank or a dash, and
/// becomes a dash, or lies on the star's column at most 4 rows away inside
/// the grid, held a blank or a bar, and becomes a bar; a changed cell is
/// never below the skyline of its column (`rows - 1 - y >= skyline[x]`);
/// backgrounds and weights are always kept.  A streak cell `d` away changes
/// only while the strength less 9 d (sideways) or 16 d (up and down) stays
/// above 10, and a blank cell within that reach, not below the skyline,
/// always takes the streak's glyph.
pub proof fn lemma_star_flare_effect(
    cell: Cell,
    x: int,
    y: int,
    sx: int,
    sy: int,
    rows: int,
    skyline: Seq<usize>,
    h_alpha: u8,
    v_alpha: u8,
    flare: Rgb,
)
    ensures
        ({
            let r = star_flare_cell(cell, x, y, sx, sy, rows, skyline, h_alpha, v_alpha, flare);
            &&& r.bg == cell.bg
            &&& r.bold == cell.bold
            &&& cell.ch != ' ' && cell.ch != '─' && cell.ch != '│' ==> r == cell
            &&& r != cell ==> rows - 1 - y >= skyline[x]
            &&& r != cell ==> (y == sy && x != sx && x - sx <= 11 && sx - x <= 11 && (cell.ch
                == ' ' || cell.ch == '─') && r.ch == '─') || (x == sx && y != sy && y < rows && y
                - sy <= 4 && sy - y <= 4 && (cell.ch == ' ' || cell.ch == '│') && r.ch == '│')
            &&& y == sy && x != sx && r != cell ==> h_alpha > 10 + 9 * dist(x, sx)
            &&& x == sx && y != sy && r != cell ==> v_alpha > 10 + 16 * dist(y, sy)
            &&& y == sy && 1 <= dist(x, sx) <= 11 && h_alpha > 10 + 9 * dist(x, sx) && cell.ch == ' '
                && rows - 1 - y >= skyline[x] ==> r.ch == '─'
            &&& x == sx && 0 <= y < rows && 1 <= dist(y, sy) <= 4 && v_alpha > 10 + 16 * dist(y, sy)
                && cell.ch == ' ' && rows - 1 - y >= skyline[x] ==> r.ch == '│'
        }),
{
}

} // verus!
