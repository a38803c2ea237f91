# bursts

A fireworks screensaver: a city skyline at night, rockets that rise and burst
into sparks, twinkling stars that light up near explosions, and cinematic lens
flares.

## Layout

- `src/` — the verified library (Verus):
  - `cell.rs`: a grid cell as plain values;
  - `color.rs`: the flare colour blends, computed exactly in integers;
  - `grid.rs`: row-major addressing of the grid;
  - `flare.rs`: explosion starbursts and star lens flares drawn on the grid;
  - `sprites.rs`: rockets and particles placed on the grid, behind the skyline;
  - `skyline.rs`: the city skyline generator, a state machine fed with random draws;
  - `palette.rs`: firework colours, glyphs and the star count.
- `app/` — the screensaver program: floating-point motion and lighting, the
  host platform (system information, logo, random source, terminal cells).
- `tests/` — tests of the library, including comparisons with the
  floating-point formulas and drawing loops of the screensaver.
