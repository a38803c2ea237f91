use bursts::color::{
    blend_explosion_flare_h_color, blend_explosion_flare_v_color, blend_horizontal_flare_color,
    blend_vertical_flare_color,
};

// The colour formulas as the screensaver states them in floating point.
fn float_horizontal(fade: u8, flare_color: (u8, u8, u8)) -> (u8, u8, u8) {
    let fg_r = fade.saturating_add((flare_color.0 as f32 * 0.8) as u8);
    let fg_g = ((fade as f32 * 0.75) as u8).saturating_add((flare_color.1 as f32 * 0.8) as u8);
    let fg_b = (fade.saturating_add(45)).saturating_add((flare_color.2 as f32 * 0.8) as u8);
    (fg_r, fg_g, fg_b)
}

fn float_vertical(fade: u8, flare_color: (u8, u8, u8)) -> (u8, u8, u8) {
    let fg_r = fade.saturating_add((flare_color.0 as f32 * 0.8) as u8);
    let fg_g = ((fade as f32 * 0.75) as u8).saturating_add((flare_color.1 as f32 * 0.8) as u8);
    let fg_b = (fade.saturating_add(30)).saturating_add((flare_color.2 as f32 * 0.8) as u8);
    (fg_r, fg_g, fg_b)
}

fn float_explosion(current_fg: (u8, u8, u8), fade: u8, color: (u8, u8, u8), lift: f32) -> (u8, u8, u8) {
    (
        current_fg.0.saturating_add((color.0 as f32 * (fade as f32 / 255.0)) as u8),
        current_fg.1.saturating_add((color.1 as f32 * (fade as f32 / 255.0)) as u8),
        current_fg.2.saturating_add(
            (color.2 as f32 * (fade as f32 / 255.0) + lift * (fade as f32 / 255.0)) as u8,
        ),
    )
}

#[test]
fn test_blend_flare_colors() {
    let h_color = blend_horizontal_flare_color(100, (50, 100, 150));
    assert_eq!(h_color.0, 100 + 40); // 100 + 50*0.8 = 140
    assert_eq!(h_color.1, 75 + 80); // 100*0.75 + 100*0.8 = 155
    assert_eq!(h_color.2, 255); // saturating addition (over 255 -> 255)
    assert_eq!(h_color.2, 255);

    let v_color = blend_vertical_flare_color(100, (50, 100, 150));
    assert_eq!(v_color.0, 140);
    assert_eq!(v_color.1, 155);
    assert_eq!(v_color.2, 250); // 100 + 30 + 120 = 250
}

#[test]
fn star_flare_blends_match_float_formulas_everywhere() {
    for fade in 0..=255u8 {
        for c in 0..=255u8 {
            let colors = [(c, 0, 0), (0, c, 0), (0, 0, c), (c, c, c), (c, 255 - c, c / 2)];
            for color in colors {
                assert_eq!(blend_horizontal_flare_color(fade, color), float_horizontal(fade, color));
                assert_eq!(blend_vertical_flare_color(fade, color), float_vertical(fade, color));
            }
        }
    }
}

#[test]
fn explosion_blends_match_float_formulas_everywhere() {
    for fade in 0..=255u8 {
        for c in 0..=255u8 {
            for base in [0u8, 1, 60, 128, 200, 255] {
                let current = (base, 255 - base, base / 3);
                let color = (c, 255 - c, c);
                assert_eq!(
                    blend_explosion_flare_h_color(current, fade, color),
                    float_explosion(current, fade, color, 40.0)
                );
                assert_eq!(
                    blend_explosion_flare_v_color(current, fade, color),
                    float_explosion(current, fade, color, 20.0)
                );
            }
        }
    }
}

#[test]
fn horizontal_flare_exact_values() {
    // 200 * 4/5 = 160, 7 * 3/4 = 5, 7 + 45 + 0 = 52
    assert_eq!(blend_horizontal_flare_color(7, (200, 0, 0)), (167, 5, 52));
    assert_eq!(blend_horizontal_flare_color(0, (0, 0, 0)), (0, 0, 45));
    assert_eq!(blend_horizontal_flare_color(255, (255, 255, 255)), (255, 255, 255));
}

#[test]
fn vertical_flare_exact_values() {
    // 9 * 4/5 = 7, 12 * 3/4 = 9, 12 + 30 + 3 = 45
    assert_eq!(blend_vertical_flare_color(12, (9, 9, 4)), (19, 16, 45));
    assert_eq!(blend_vertical_flare_color(0, (0, 0, 0)), (0, 0, 30));
}

#[test]
fn explosion_blend_exact_values() {
    // 255 * 51 / 255 = 51; blue (0 + 40) * 51 / 255 = 8
    assert_eq!(blend_explosion_flare_h_color((10, 20, 30), 51, (255, 100, 0)), (61, 40, 38));
    // blue (0 + 20) * 51 / 255 = 4
    assert_eq!(blend_explosion_flare_v_color((10, 20, 30), 51, (255, 100, 0)), (61, 40, 34));
    assert_eq!(blend_explosion_flare_h_color((250, 250, 250), 255, (255, 255, 255)), (255, 255, 255));
}

#[test]
fn explosion_blend_with_zero_fade_keeps_colour() {
    for base in [(0u8, 0u8, 0u8), (12, 34, 56), (255, 255, 255)] {
        assert_eq!(blend_explosion_flare_h_color(base, 0, (255, 255, 255)), base);
        assert_eq!(blend_explosion_flare_v_color(base, 0, (255, 255, 255)), base);
    }
}

#[test]
fn explosion_blend_never_darkens() {
    for fade in [0u8, 16, 100, 255] {
        let current = (90u8, 180u8, 250u8);
        let h = blend_explosion_flare_h_color(current, fade, (40, 0, 255));
        let v = blend_explosion_flare_v_color(current, fade, (40, 0, 255));
        assert!(h.0 >= current.0 && h.1 >= current.1 && h.2 >= current.2);
        assert!(v.0 >= current.0 && v.1 >= current.1 && v.2 >= current.2);
    }
}
