//! Colour arithmetic of the lens flares.
//!
//! Every blend scales a channel by a fixed ratio, truncates toward zero and
//! adds with saturation at 255.  The ratios are exact integer fractions
//! (`4/5`, `3/4`, `fade/255`), so the channels are computed in integers.

use vstd::prelude::*;
use crate::cell::Rgb;

verus! {

/// `v` clamped from above to the largest channel value.
pub open spec fn sat_channel(v: int) -> int {
    if v > 255 { 255 } else { v }
}

/// Four fifths of a channel, truncated.
pub open spec fn four_fifths(x: int) -> int {
    x * 4 / 5
}

/// Three quarters of a channel, truncated.
pub open spec fn three_quarters(x: int) -> int {
    x * 3 / 4
}

/// `x` scaled by `fade / 255`, truncated.
pub open spec fn faded(x: int, fade: int) -> int {
    x * fade / 255
}

/// The colour of a star's horizontal lens flare at streak strength `fade`.
pub open spec fn horizontal_flare(fade: u8, flare: Rgb) -> Rgb {
    (
        sat_channel(fade + four_fifths(flare.0 as int)) as u8,
        sat_channel(three_quarters(fade as int) + four_fifths(flare.1 as int)) as u8,
        sat_channel(fade + 45 + four_fifths(flare.2 as int)) as u8,
    )
}

/// The colour of a star's vertical lens flare at streak strength `fade`.
pub open spec fn vertical_flare(fade: u8, flare: Rgb) -> Rgb {
    (
        sat_channel(fade + four_fifths(flare.0 as int)) as u8,
        sat_channel(three_quarters(fade as int) + four_fifths(flare.1 as int)) as u8,
        sat_channel(fade + 30 + four_fifths(flare.2 as int)) as u8,
    )
}

/// `current` brightened by an explosion's horizontal streak of strength `fade`.
pub open spec fn explosion_streak_h(current: Rgb, fade: u8, color: Rgb) -> Rgb {
    (
        sat_channel(current.0 + faded(color.0 as int, fade as int)) as u8,
        sat_channel(current.1 + faded(color.1 as int, fade as int)) as u8,
        sat_channel(current.2 + faded(color.2 + 40, fade as int)) as u8,
    )
}

/// `current` brightened by an explosion's vertical streak of strength `fade`.
pub open spec fn explosion_streak_v(current: Rgb, fade: u8, color: Rgb) -> Rgb {
    (
        sat_channel(current.0 + faded(color.0 as int, fade as int)) as u8,
        sat_channel(current.1 + faded(color.1 as int, fade as int)) as u8,
        sat_channel(current.2 + faded(color.2 + 20, fade as int)) as u8,
    )
}

fn four_fifths_of(x: u8) -> (r: u8)
    ensures
        r == four_fifths(x as int),
{
    let w: u16 = x as u16;
    ((w * 4) / 5) as u8
}

fn three_quarters_of(x: u8) -> (r: u8)
    ensures
        r == three_quarters(x as int),
{
    let w: u16 = x as u16;
    ((w * 3) / 4) as u8
}

/// `x * fade / 255`, truncated and capped at 255.
fn faded_of(x: u16, fade: u8) -> (r: u8)
    requires
        x <= 295,
    ensures
        r == sat_channel(faded(x as int, fade as int)),
{
    assert(x * fade <= 295 * 255) by (nonlinear_arith)
        requires
            x <= 295,
            fade <= 255,
    ;
    let p: u32 = (x as u32) * (fade as u32);
    let q: u32 = p / 255;
    if q > 255 {
        255
    } else {
        q as u8
    }
}

/// Colour of a star's horizontal lens flare: the streak strength plus four
/// fifths of the flare colour, with a blue lift of 45, each channel saturating.
pub fn blend_horizontal_flare_color(fade: u8, flare_color: (u8, u8, u8)) -> (r: (u8, u8, u8))
    ensures
        r == horizontal_flare(fade, flare_color),
{
    let fg_r = fade.saturating_add(four_fifths_of(flare_color.0));
    let fg_g = three_quarters_of(fade).saturating_add(four_fifths_of(flare_color.1));
    let fg_b = fade.saturating_add(45).saturating_add(four_fifths_of(flare_color.2));
    (fg_r, fg_g, fg_b)
}

/// Colour of a star's vertical lens flare: as the horizontal one, with a blue
/// lift of 30.
pub fn blend_vertical_flare_color(fade: u8, flare_color: (u8, u8, u8)) -> (r: (u8, u8, u8))
    ensures
        r == vertical_flare(fade, flare_color),
{
    let fg_r = fade.saturating_add(four_fifths_of(flare_color.0));
    let fg_g = three_quarters_of(fade).saturating_add(four_fifths_of(flare_color.1));
    let fg_b = fade.saturating_add(30).saturating_add(four_fifths_of(flare_color.2));
    (fg_r, fg_g, fg_b)
}

/// A cell's foreground brightened by an explosion's horizontal streak: each
/// channel gains the explosion colour scaled by `fade / 255` (blue gains an
/// extra `40 * fade / 255`), saturating at 255.
pub fn blend_explosion_flare_h_color(current_fg: (u8, u8, u8), fade: u8, color: (u8, u8, u8)) -> (r: (u8, u8, u8))
    ensures
        r == explosion_streak_h(current_fg, fade, color),
{
    (
        current_fg.0.saturating_add(faded_of(color.0 as u16, fade)),
        current_fg.1.saturating_add(faded_of(color.1 as u16, fade)),
        current_fg.2.saturating_add(faded_of(color.2 as u16 + 40, fade)),
    )
}

/// A cell's foreground brightened by an explosion's vertical streak: as the
/// horizontal one, with an extra blue of `20 * fade / 255`.
pub fn blend_explosion_flare_v_color(current_fg: (u8, u8, u8), fade: u8, color: (u8, u8, u8)) -> (r: (u8, u8, u8))
    ensures
        r == explosion_streak_v(current_fg, fade, color),
{
    (
        current_fg.0.saturating_add(faded_of(color.0 as u16, fade)),
        current_fg.1.saturating_add(faded_of(color.1 as u16, fade)),
        current_fg.2.saturating_add(faded_of(color.2 as u16 + 20, fade)),
    )
}

/// An explosion streak never darkens a cell: every channel of the blended
/// foreground is at least the channel it started from, whatever the strength
/// and colour of the streak.
pub proof fn lemma_explosion_streak_never_darkens(current: Rgb, fade: u8, color: Rgb)
    ensures
        explosion_streak_h(current, fade, color).0 >= current.0,
        explosion_streak_h(current, fade, color).1 >= current.1,
        explosion_streak_h(current, fade, color).2 >= current.2,
        explosion_streak_v(current, fade, color).0 >= current.0,
        explosion_streak_v(current, fade, color).1 >= current.1,
        explosion_streak_v(current, fade, color).2 >= current.2,
{
    assert(faded(color.0 as int, fade as int) >= 0) by (nonlinear_arith)
        requires
            color.0 >= 0,
            fade >= 0,
    ;
    assert(faded(color.1 as int, fade as int) >= 0) by (nonlinear_arith)
        requires
            color.1 >= 0,
            fade >= 0,
    ;
    assert(faded(color.2 + 40, fade as int) >= 0) by (nonlinear_arith)
        requires
            color.2 >= 0,
            fade >= 0,
    ;
    assert(faded(color.2 + 20, fade as int) >= 0) by (nonlinear_arith)
        requires
            color.2 >= 0,
            fade >= 0,
    ;
}

/// A streak of strength 0 leaves a cell's colour as it was.
pub proof fn lemma_explosion_streak_zero_fade(current: Rgb, color: Rgb)
    ensures
        explosion_streak_h(current, 0, color) == current,
        explosion_streak_v(current, 0, color) == current,
{
}

proof fn lemma_faded_monotone(x: int, f1: int, f2: int)
    requires
        0 <= x,
        0 <= f1 <= f2,
    ensures
        faded(x, f1) <= faded(x, f2),
{
    assert(x * f1 <= x * f2) by (nonlinear_arith)
        requires
            0 <= x,
            f1 <= f2,
    ;
    assert(x * f1 / 255 <= x * f2 / 255) by (nonlinear_arith)
        requires
            x * f1 <= x * f2,
    ;
}

/// Every flare colour grows with the streak's strength: a stronger streak
/// gives each channel at least the value a weaker one gives.
pub proof fn lemma_flare_colors_grow_with_fade(f1: u8, f2: u8, current: Rgb, color: Rgb)
    requires
        f1 <= f2,
    ensures
        horizontal_flare(f1, color).0 <= horizontal_flare(f2, color).0,
        horizontal_flare(f1, color).1 <= horizontal_flare(f2, color).1,
        horizontal_flare(f1, color).2 <= horizontal_flare(f2, color).2,
        vertical_flare(f1, color).0 <= vertical_flare(f2, color).0,
        vertical_flare(f1, color).1 <= vertical_flare(f2, color).1,
        vertical_flare(f1, color).2 <= vertical_flare(f2, color).2,
        explosion_streak_h(current, f1, color).0 <= explosion_streak_h(current, f2, color).0,
        explosion_streak_h(current, f1, color).1 <= explosion_streak_h(current, f2, color).1,
        explosion_streak_h(current, f1, color).2 <= explosion_streak_h(current, f2, color).2,
        explosion_streak_v(current, f1, color).0 <= explosion_streak_v(current, f2, color).0,
        explosion_streak_v(current, f1, color).1 <= explosion_streak_v(current, f2, color).1,
        explosion_streak_v(current, f1, color).2 <= explosion_streak_v(current, f2, color).2,
{
    lemma_faded_monotone(color.0 as int, f1 as int, f2 as int);
    lemma_faded_monotone(color.1 as int, f1 as int, f2 as int);
    lemma_faded_monotone(color.2 + 40, f1 as int, f2 as int);
    lemma_faded_monotone(color.2 + 20, f1 as int, f2 as int);
    assert(three_quarters(f1 as int) <= three_quarters(f2 as int));
}

/// Horizontal and vertical streaks of the same strength and colour agree on
/// red and green; the horizontal one is bluer, a star's by at most 15 and an
/// explosion's by at most `20 * fade / 255 + 1`.
pub proof fn lemma_horizontal_streaks_are_bluer(fade: u8, current: Rgb, color: Rgb)
    ensures
        horizontal_flare(fade, color).0 == vertical_flare(fade, color).0,
        horizontal_flare(fade, color).1 == vertical_flare(fade, color).1,
        vertical_flare(fade, color).2 <= horizontal_flare(fade, color).2 <= vertical_flare(
            fade,
            color,
        ).2 + 15,
        explosion_streak_h(current, fade, color).0 == explosion_streak_v(current, fade, color).0,
        explosion_streak_h(current, fade, color).1 == explosion_streak_v(current, fade, color).1,
        explosion_streak_v(current, fade, color).2 <= explosion_streak_h(current, fade, color).2
            <= explosion_streak_v(current, fade, color).2 + 20 * fade / 255 + 1,
{
    let b = color.2 as int;
    let f = fade as int;
    assert((b + 20) * f / 255 <= (b + 40) * f / 255 <= (b + 20) * f / 255 + 20 * f / 255 + 1)
        by (nonlinear_arith)
        requires
            0 <= b,
            0 <= f,
    ;
}

/// At full strength an explosion streak adds its whole colour (and a blue of
/// 40 sideways, 20 up and down), saturating at 255.
pub proof fn lemma_full_strength_streak(current: Rgb, color: Rgb)
    ensures
        explosion_streak_h(current, 255, color) == (
            sat_channel(current.0 + color.0) as u8,
            sat_channel(current.1 + color.1) as u8,
            sat_channel(current.2 + color.2 + 40) as u8,
        ),
        explosion_streak_v(current, 255, color) == (
            sat_channel(current.0 + color.0) as u8,
            sat_channel(current.1 + color.1) as u8,
            sat_channel(current.2 + color.2 + 20) as u8,
        ),
{
    assert(forall|x: int| #![trigger faded(x, 255)] faded(x, 255) == x) by {
        assert forall|x: int| #![trigger faded(x, 255)] faded(x, 255) == x by {
            assert(x * 255 / 255 == x) by (nonlinear_arith);
        }
    }
}

} // verus!
