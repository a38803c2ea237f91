//! A character cell of the terminal grid, held as plain values.

use vstd::prelude::*;

verus! {

/// An RGB triple, each channel in `0..=255`.
pub type Rgb = (u8, u8, u8);

/// One cell of the character grid: glyph, foreground, background and weight.
#[derive(Clone, Copy, Debug, PartialEq, Eq)]
pub struct Cell {
    pub ch: char,
    pub fg: Rgb,
    pub bg: Rgb,
    pub bold: bool,
}

} // verus!
