use bursts::cell::Cell;
use bursts::color::{
    blend_explosion_flare_h_color, blend_explosion_flare_v_color, blend_horizontal_flare_color,
    blend_vertical_flare_color,
};
use bursts::flare::{draw_explosion_flare, draw_star_flare};

fn blank() -> Cell {
    Cell { ch: ' ', fg: (0, 0, 0), bg: (1, 2, 3), bold: false }
}

fn grid_of(cols: usize, rows: usize) -> Vec<Cell> {
    vec![blank(); cols * rows]
}

#[test]
fn explosion_flare_draws_starburst_and_streaks() {
    let (cols, rows) = (40usize, 12usize);
    let mut grid = grid_of(cols, rows);
    draw_explosion_flare(&mut grid, cols, rows, 20, 6, 160, 110, (255, 0, 0));

    let at = |x: usize, y: usize| grid[y * cols + x];
    assert_eq!(at(20, 6), Cell { ch: '✸', fg: (255, 255, 255), bg: (1, 2, 3), bold: true });
    // one cell right: fade 160 - 9 = 151, blue gains 40 * 151 / 255 = 23
    assert_eq!(at(21, 6), Cell { ch: '─', fg: (151, 0, 23), bg: (1, 2, 3), bold: false });
    assert_eq!(at(19, 6), at(21, 6));
    // fifteen cells away: fade 160 - 135 = 25
    assert_eq!(at(35, 6), Cell { ch: '─', fg: (25, 0, 3), bg: (1, 2, 3), bold: false });
    assert_eq!(at(5, 6).ch, '─');
    // the streak reaches no further than 15 cells
    assert_eq!(at(36, 6), blank());
    assert_eq!(at(4, 6), blank());
    // vertical: fade 110 - 16 = 94 one row up, blue gains 20 * 94 / 255 = 7
    assert_eq!(at(20, 5), Cell { ch: '│', fg: (94, 0, 7), bg: (1, 2, 3), bold: false });
    assert_eq!(at(20, 7), at(20, 5));
    // five rows away: fade 110 - 80 = 30
    assert_eq!(at(20, 1), Cell { ch: '│', fg: (30, 0, 2), bg: (1, 2, 3), bold: false });
    assert_eq!(at(20, 11), at(20, 1));
    assert_eq!(at(20, 0), blank());
    // off the cross nothing changes
    for y in 0..rows {
        for x in 0..cols {
            if x != 20 && y != 6 {
                assert_eq!(at(x, y), blank());
            }
        }
    }
}

#[test]
fn explosion_flare_weak_streaks_are_not_drawn() {
    let (cols, rows) = (20usize, 8usize);
    let mut grid = grid_of(cols, rows);
    // fade one cell away is 24 - 9 = 15, not above 15
    draw_explosion_flare(&mut grid, cols, rows, 10, 4, 24, 31, (0, 255, 0));
    for (i, c) in grid.iter().enumerate() {
        if i == 4 * cols + 10 {
            assert_eq!(c.ch, '✸');
        } else {
            assert_eq!(*c, blank());
        }
    }
}

#[test]
fn explosion_flare_keeps_glyphs_and_clips_at_edges() {
    let (cols, rows) = (6usize, 3usize);
    let mut grid = grid_of(cols, rows);
    grid[0 * cols + 1] = Cell { ch: '#', fg: (250, 10, 10), bg: (9, 9, 9), bold: true };
    draw_explosion_flare(&mut grid, cols, rows, 0, 0, 200, 200, (255, 255, 255));
    // fade one cell right: 191; the glyph stays, the colour saturates
    assert_eq!(grid[1], Cell {
        ch: '#',
        fg: blend_explosion_flare_h_color((250, 10, 10), 191, (255, 255, 255)),
        bg: (9, 9, 9),
        bold: true,
    });
    assert_eq!(grid[1].fg.0, 255);
    // the rightmost column is reached, nothing wraps to the next row
    assert_eq!(grid[5].ch, '─');
    assert_eq!(grid[cols + 1], blank());
    // the column below the centre
    assert_eq!(grid[cols].fg, blend_explosion_flare_v_color((0, 0, 0), 184, (255, 255, 255)));
    assert_eq!(grid[2 * cols].ch, '│');
}

#[test]
fn explosion_flare_leaves_cells_beyond_the_grid() {
    let (cols, rows) = (5usize, 2usize);
    let mut grid = grid_of(cols, rows + 1);
    draw_explosion_flare(&mut grid, cols, rows, 2, 1, 200, 200, (255, 255, 255));
    for x in 0..cols {
        assert_eq!(grid[2 * cols + x], blank());
    }
    assert_eq!(grid[2].ch, '│');
}

#[test]
fn star_flare_respects_skyline_and_glyphs() {
    let (cols, rows) = (30usize, 10usize);
    let mut grid = grid_of(cols, rows);
    let mut skyline = vec![0usize; cols];
    for x in 20..25 {
        skyline[x] = 5;
    }
    grid[6 * cols + 12] = Cell { ch: 'X', fg: (1, 1, 1), bg: (0, 0, 0), bold: false };
    grid[6 * cols + 13] = Cell { ch: '─', fg: (7, 7, 7), bg: (4, 4, 4), bold: true };
    let color = (200, 100, 50);
    draw_star_flare(&mut grid, &skyline, cols, rows, 15, 6, 120, 90, color);
    let at = |x: usize, y: usize| grid[y * cols + x];

    // horizontal: fade 120 - 9 d for d in 1..12, drawn above the skyline only
    for d in 1..12usize {
        let fade = 120 - 9 * d as u8;
        let expected = Cell { ch: '─', fg: blend_horizontal_flare_color(fade, color), bg: (1, 2, 3), bold: false };
        let right = 15 + d;
        if (20..25).contains(&right) {
            assert_eq!(at(right, 6), blank());
        } else {
            assert_eq!(at(right, 6), expected);
        }
        let left = 15 - d;
        if left == 12 {
            assert_eq!(at(left, 6).ch, 'X');
        } else if left == 13 {
            assert_eq!(at(left, 6), Cell { ch: '─', fg: blend_horizontal_flare_color(fade, color), bg: (4, 4, 4), bold: true });
        } else {
            assert_eq!(at(left, 6), expected);
        }
    }
    assert_eq!(at(27, 6), blank());
    assert_eq!(at(3, 6), blank());
    // vertical: fade 90 - 16 d for d in 1..5
    for d in 1..5usize {
        let fade = 90 - 16 * d as u8;
        let expected = Cell { ch: '│', fg: blend_vertical_flare_color(fade, color), bg: (1, 2, 3), bold: false };
        assert_eq!(at(15, 6 - d), expected);
        if 6 + d < rows {
            assert_eq!(at(15, 6 + d), expected);
        }
    }
    assert_eq!(at(15, 1), blank());
    // the star's own cell is not touched
    assert_eq!(at(15, 6), blank());
}

#[test]
fn star_flare_vertical_stops_at_buildings() {
    let (cols, rows) = (5usize, 10usize);
    let mut grid = grid_of(cols, rows);
    let skyline = vec![0, 0, 3, 0, 0];
    // star at column 2, row 5: rows 7, 8 and 9 are inside the building
    draw_star_flare(&mut grid, &skyline, cols, rows, 2, 5, 0, 255, (0, 0, 0));
    assert_eq!(grid[6 * cols + 2].ch, '│');
    for y in 7..10 {
        assert_eq!(grid[y * cols + 2], blank());
    }
    for y in 1..5 {
        assert_eq!(grid[y * cols + 2].ch, '│');
    }
    // a zero horizontal strength draws no horizontal streak
    for x in [0usize, 1, 3, 4] {
        assert_eq!(grid[5 * cols + x], blank());
    }
}
