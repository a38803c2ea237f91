use bursts::cell::Cell;
use bursts::palette::{
    explosion_glyph, firework_color, is_smoke_color, star_glyph, target_star_count, FIREWORK_COLOR_COUNT,
};
use bursts::sprites::{draw_particle, draw_rocket};

fn blank() -> Cell {
    Cell { ch: ' ', fg: (0, 0, 0), bg: (0, 0, 0), bold: false }
}

#[test]
fn rocket_is_drawn_inside_the_grid_only() {
    let mut grid = vec![blank(); 4 * 3];
    draw_rocket(&mut grid, 4, 3, 1, 2);
    assert_eq!(grid[2 * 4 + 1], Cell { ch: '▲', fg: (255, 255, 255), bg: (0, 0, 0), bold: true });
    let before = grid.clone();
    draw_rocket(&mut grid, 4, 3, 4, 0);
    draw_rocket(&mut grid, 4, 3, 0, 3);
    assert_eq!(grid, before);
}

#[test]
fn sparks_stay_above_the_skyline() {
    let (cols, rows) = (4usize, 6usize);
    let skyline = vec![0, 2, 0, 0];
    let spark = Cell { ch: '*', fg: (200, 0, 0), bg: (0, 0, 0), bold: true };
    let mut grid = vec![blank(); cols * rows];
    // row 5 is the bottom row, row 4 the second: both inside the building of column 1
    draw_particle(&mut grid, &skyline, cols, rows, 1, 5, spark, false);
    draw_particle(&mut grid, &skyline, cols, rows, 1, 4, spark, false);
    assert_eq!(grid, vec![blank(); cols * rows]);
    // row 3 is two cells above the bottom: at the building's height, drawn
    draw_particle(&mut grid, &skyline, cols, rows, 1, 3, spark, false);
    assert_eq!(grid[3 * cols + 1], spark);
}

#[test]
fn sparks_only_replace_blanks_and_streaks() {
    let (cols, rows) = (3usize, 3usize);
    let skyline = vec![0usize; cols];
    let spark = Cell { ch: '+', fg: (9, 9, 9), bg: (0, 0, 0), bold: false };
    for (ch, replaced) in [(' ', true), ('─', true), ('│', true), ('/', true), ('\\', true), ('✸', false), ('▲', false)] {
        let mut grid = vec![blank(); cols * rows];
        grid[4].ch = ch;
        draw_particle(&mut grid, &skyline, cols, rows, 1, 1, spark, false);
        assert_eq!(grid[4] == spark, replaced, "glyph {:?}", ch);
    }
}

#[test]
fn smoke_is_drawn_everywhere_in_the_grid() {
    let (cols, rows) = (3usize, 3usize);
    let skyline = vec![3usize; cols];
    let smoke = Cell { ch: '.', fg: (60, 60, 60), bg: (0, 0, 0), bold: false };
    let mut grid = vec![blank(); cols * rows];
    grid[8].ch = '■';
    draw_particle(&mut grid, &skyline, cols, rows, 2, 2, smoke, true);
    assert_eq!(grid[8], smoke);
    let before = grid.clone();
    draw_particle(&mut grid, &skyline, cols, rows, 3, 0, smoke, true);
    assert_eq!(grid, before);
}

#[test]
fn palette_holds_the_eight_firework_colours() {
    assert_eq!(FIREWORK_COLOR_COUNT, 8);
    let expected = [
        (255, 50, 50),
        (50, 255, 50),
        (50, 100, 255),
        (255, 200, 0),
        (255, 50, 255),
        (0, 255, 255),
        (255, 128, 0),
        (200, 200, 255),
    ];
    for (i, c) in expected.iter().enumerate() {
        assert_eq!(firework_color(i), *c);
    }
}

#[test]
fn smoke_colour_is_recognised() {
    assert!(is_smoke_color((100, 100, 100)));
    assert!(!is_smoke_color((100, 100, 101)));
    assert!(!is_smoke_color((255, 50, 50)));
}

#[test]
fn spark_and_star_glyphs() {
    assert_eq!(explosion_glyph(0), '*');
    assert_eq!(explosion_glyph(1), '+');
    assert_eq!(explosion_glyph(2), '•');
    assert_eq!(explosion_glyph(3), '.');
    assert_eq!(explosion_glyph(99), '.');
    assert_eq!(star_glyph(0), '✦');
    assert_eq!(star_glyph(7), '✦');
    assert_eq!(star_glyph(21), '✦');
    assert_eq!(star_glyph(3), '•');
    assert_eq!(star_glyph(9), '•');
    assert_eq!(star_glyph(1), '.');
    assert_eq!(star_glyph(10), '.');
}

#[test]
fn star_count_is_one_per_twenty_cells_within_bounds() {
    assert_eq!(target_star_count(80, 24), 80); // 96 capped
    assert_eq!(target_star_count(40, 20), 40);
    assert_eq!(target_star_count(10, 10), 10); // 5 raised
    assert_eq!(target_star_count(0, 0), 10);
    assert_eq!(target_star_count(120, 40), 80);
    assert_eq!(target_star_count(30, 13), 19);
}
