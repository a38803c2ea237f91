//! Palette and glyph rules of the show.

use vstd::prelude::*;
use crate::cell::Rgb;

verus! {

/// Number of firework colours.
pub const FIREWORK_COLOR_COUNT: usize = 8;

/// The colour of rocket trail smoke.
pub const SMOKE_COLOR: (u8, u8, u8) = (100, 100, 100);

/// The firework colours: red, green, blue, gold, magenta, cyan, orange, silver.
pub open spec fn firework_palette() -> Seq<Rgb> {
    seq![
        (255u8, 50u8, 50u8),
        (50u8, 255u8, 50u8),
        (50u8, 100u8, 255u8),
        (255u8, 200u8, 0u8),
        (255u8, 50u8, 255u8),
        (0u8, 255u8, 255u8),
        (255u8, 128u8, 0u8),
        (200u8, 200u8, 255u8),
    ]
}

/// Firework colour number `i` of the palette.
pub fn firework_color(i: usize) -> (c: (u8, u8, u8))
    requires
        i < FIREWORK_COLOR_COUNT,
    ensures
        c == firework_palette()[i as int],
{
    match i {
        0 => (255, 50, 50),
        1 => (50, 255, 50),
        2 => (50, 100, 255),
        3 => (255, 200, 0),
        4 => (255, 50, 255),
        5 => (0, 255, 255),
        6 => (255, 128, 0),
        _ => (200, 200, 255),
    }
}

/// Whether a particle of this colour is trail smoke rather than a spark.
pub fn is_smoke_color(color: (u8, u8, u8)) -> (r: bool)
    ensures
        r == (color == SMOKE_COLOR),
        r <==> color.0 == 100 && color.1 == 100 && color.2 == 100,
{
    color.0 == 100 && color.1 == 100 && color.2 == 100
}

/// The glyph of an explosion spark for a draw `k` in `0..4`.
pub open spec fn spark_glyph(k: int) -> char {
    if k == 0 {
        '*'
    } else if k == 1 {
        '+'
    } else if k == 2 {
        '•'
    } else {
        '.'
    }
}

/// Glyph of an explosion spark chosen by the draw `k`: `*`, `+`, `•`, and
/// `.` for every other value.
pub fn explosion_glyph(k: usize) -> (ch: char)
    ensures
        ch == spark_glyph(k as int),
        k == 0 ==> ch == '*',
        k == 1 ==> ch == '+',
        k == 2 ==> ch == '•',
        k >= 3 ==> ch == '.',
{
    match k {
        0 => '*',
        1 => '+',
        2 => '•',
        _ => '.',
    }
}

/// The resting glyph of background star number `i`.
pub open spec fn star_glyph_of(i: int) -> char {
    if i % 7 == 0 {
        '✦'
    } else if i % 3 == 0 {
        '•'
    } else {
        '.'
    }
}

/// Resting glyph of background star number `i`: every seventh star is a
/// four-pointed star, every third of the others a dot, the rest full stops.
pub fn star_glyph(i: usize) -> (ch: char)
    ensures
        ch == star_glyph_of(i as int),
        i % 7 == 0 ==> ch == '✦',
        i % 7 != 0 && i % 3 == 0 ==> ch == '•',
        i % 7 != 0 && i % 3 != 0 ==> ch == '.',
{
    if i % 7 == 0 {
        '✦'
    } else if i % 3 == 0 {
        '•'
    } else {
        '.'
    }
}

/// Fewest and most background stars.
pub const MIN_STARS: usize = 10;
pub const MAX_STARS: usize = 80;

/// One star per 20 cells of the grid, clamped to `10..=80`.
pub open spec fn star_count(cols: int, rows: int) -> int {
    let n = cols * rows / 20;
    if n < MIN_STARS {
        MIN_STARS as int
    } else if n > MAX_STARS {
        MAX_STARS as int
    } else {
        n
    }
}

/// Number of background stars for a `cols` by `rows` grid: one per 20
/// cells, at least 10 and at most 80.
pub fn target_star_count(cols: usize, rows: usize) -> (n: usize)
    requires
        cols * rows <= usize::MAX,
    ensures
        n == star_count(cols as int, rows as int),
        MIN_STARS <= n <= MAX_STARS,
        10 <= n <= 80,
        200 <= cols * rows < 1620 ==> n == cols * rows / 20,
        cols * rows < 200 ==> n == 10,
        cols * rows >= 1620 ==> n == 80,
{
    let per_cells = cols * rows / 20;
    if per_cells < MIN_STARS {
        MIN_STARS
    } else if per_cells > MAX_STARS {
        MAX_STARS
    } else {
        per_cells
    }
}

/// No firework colour is the smoke colour, and the eight colours are
/// distinct: a spark is never taken for smoke.
pub proof fn lemma_palette_is_not_smoke()
    ensures
        firework_palette().len() == 8,
        forall|i: int| 0 <= i < 8 ==> #[trigger] firework_palette()[i] != (100u8, 100u8, 100u8),
        forall|i: int, j: int|
            0 <= i < j < 8 ==> #[trigger] firework_palette()[i] != #[trigger] firework_palette()[j],
{
}

} // verus!
