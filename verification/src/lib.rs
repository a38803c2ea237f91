//! Verified core of the `bursts` fireworks screensaver: the colour arithmetic of
//! lens flares, the flare and particle overlays on the character grid, the
//! procedural city skyline, and the small palette rules of the show.

pub mod cell;
pub mod color;
pub mod grid;
pub mod flare;
pub mod skyline;
pub mod palette;
pub mod sprites;
