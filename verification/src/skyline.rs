//! The procedural city skyline.
//!
//! Buildings are laid out left to right from random draws: each building is
//! 3 to 8 columns wide and 3 to `rows / 4 + 2` cells high, every cell of it
//! is a window that is lit with a small probability, and buildings are
//! separated by gaps of 0 or 1 column.  The random source lives outside this
//! crate, so generation is a state machine: [`SkylineBuilder::next_draw`]
//! says which draw is needed next, and the caller feeds the drawn value back
//! with [`SkylineBuilder::feed_uniform`] or [`SkylineBuilder::feed_window`]
//! until the builder reports [`SkylineDraw::Finished`].

use vstd::prelude::*;
use crate::grid::{col_of, lemma_cell_in_grid, lemma_index_of_cell, row_of};

verus! {

/// Number of possible building widths; a width is `3 + draw`.
pub const WIDTH_CHOICES: usize = 6;
/// The narrowest building.
pub const MIN_BUILDING_WIDTH: usize = 3;
/// The lowest building.
pub const MIN_BUILDING_HEIGHT: usize = 3;
/// Number of possible gaps between buildings (0 or 1 column).
pub const GAP_CHOICES: usize = 2;
/// Skyline style that leaves the sky empty.
pub const EMPTY_SKY_STYLE: u32 = 1;
/// Grids with fewer rows get no buildings.
pub const MIN_SKYLINE_ROWS: usize = 4;

/// The draw that the generator needs next.
#[derive(Clone, Copy, Debug, PartialEq, Eq)]
pub enum SkylineDraw {
    /// A uniform integer in `0..n`.
    Uniform(usize),
    /// Whether the next window is lit (probability 0.12 in the screensaver).
    WindowLight,
    /// Generation is complete.
    Finished,
}

/// Where the generator stands.
#[derive(Clone, Copy, Debug, PartialEq, Eq)]
pub enum SkylineStep {
    /// Waiting for the width of the next building.
    Width,
    /// Waiting for the height of the current building.
    Height,
    /// Filling the windows of the current column, bottom up.
    Window,
    /// Waiting for the gap after the current building.
    Gap,
    /// Done.
    Finished,
}

/// Mathematical model of the generator.
pub struct SkylineState {
    /// Grid width.
    pub cols: nat,
    /// Grid height.
    pub rows: nat,
    /// Building height of each column (0 where there is no building).
    pub skyline: Seq<usize>,
    /// Lit windows, row-major: cell `(x, y)` at `y * cols + x`.
    pub windows: Seq<bool>,
    /// First column of the current building.
    pub col: nat,
    /// Width of the current building.
    pub width: nat,
    /// Height of the current building.
    pub height: nat,
    /// Column of the current building being filled, relative to `col`.
    pub offset: nat,
    /// Window row being decided in that column, counted from the bottom.
    pub row: nat,
    /// What the generator waits for.
    pub step: SkylineStep,
}

/// The tallest building of a `rows`-high grid.
pub open spec fn max_building_height(rows: nat) -> nat {
    rows / 4 + 2
}

/// Every column is either empty or holds a building of a permitted height.
pub open spec fn heights_valid(skyline: Seq<usize>, rows: nat) -> bool {
    forall|x: int|
        0 <= x < skyline.len() ==> #[trigger] skyline[x] == 0 || (MIN_BUILDING_HEIGHT <= skyline[x]
            <= max_building_height(rows))
}

/// Every lit window lies inside the building of its column: its height above
/// the bottom row is below the building's height.
pub open spec fn windows_inside_buildings(
    skyline: Seq<usize>,
    windows: Seq<bool>,
    cols: nat,
    rows: nat,
) -> bool {
    forall|i: int|
        0 <= i < windows.len() && #[trigger] windows[i] ==> rows - 1 - row_of(i, cols as int)
            < skyline[col_of(i, cols as int)]
}

impl SkylineState {
    /// The state right after construction.
    pub open spec fn initial(cols: nat, rows: nat, style: u32) -> SkylineState {
        SkylineState {
            cols,
            rows,
            skyline: Seq::new(cols, |x: int| 0usize),
            windows: Seq::new(cols * rows, |i: int| false),
            col: 0,
            width: 0,
            height: 0,
            offset: 0,
            row: 0,
            step: if style == EMPTY_SKY_STYLE || rows < MIN_SKYLINE_ROWS || cols == 0 {
                SkylineStep::Finished
            } else {
                SkylineStep::Width
            },
        }
    }

    /// The draw needed next.
    pub open spec fn request(self) -> SkylineDraw {
        match self.step {
            SkylineStep::Width => SkylineDraw::Uniform(WIDTH_CHOICES),
            SkylineStep::Height => SkylineDraw::Uniform((self.rows / 4) as usize),
            SkylineStep::Window => SkylineDraw::WindowLight,
            SkylineStep::Gap => SkylineDraw::Uniform(GAP_CHOICES),
            SkylineStep::Finished => SkylineDraw::Finished,
        }
    }

    /// Columns at or right of this one have not been built on yet.
    pub open spec fn frontier(self) -> nat {
        match self.step {
            SkylineStep::Width => self.col,
            SkylineStep::Height => self.col,
            SkylineStep::Window => self.col + self.offset + 1,
            SkylineStep::Gap => self.col + self.width,
            SkylineStep::Finished => self.cols,
        }
    }

    /// Starts the column at `offset` of the current building: it gets the
    /// building's height and its windows are decided next; past the
    /// building's last column or the grid's right edge, the gap is drawn next.
    pub open spec fn enter_column(self) -> SkylineState {
        if self.offset < self.width && self.col + self.offset < self.cols {
            SkylineState {
                skyline: self.skyline.update((self.col + self.offset) as int, self.height as usize),
                row: 0,
                step: SkylineStep::Window,
                ..self
            }
        } else {
            SkylineState { step: SkylineStep::Gap, ..self }
        }
    }

    /// The state after a uniform draw `v`: a width `3 + v`, a height `3 + v`
    /// (then the first column is started), or a gap of `v` columns after the
    /// building (then the next building, or the end past the right edge).
    pub open spec fn after_uniform(self, v: nat) -> SkylineState {
        match self.step {
            SkylineStep::Width => SkylineState {
                width: (MIN_BUILDING_WIDTH + v) as nat,
                step: SkylineStep::Height,
                ..self
            },
            SkylineStep::Height => SkylineState {
                height: (MIN_BUILDING_HEIGHT + v) as nat,
                offset: 0,
                ..self
            }.enter_column(),
            SkylineStep::Gap => {
                let next = self.col + self.width + v;
                SkylineState {
                    col: next,
                    step: if next < self.cols {
                        SkylineStep::Width
                    } else {
                        SkylineStep::Finished
                    },
                    ..self
                }
            },
            _ => self,
        }
    }

    /// Index of the window being decided: `row` cells above the bottom row,
    /// in column `col + offset`.
    pub open spec fn window_index(self) -> int {
        (self.rows - 1 - self.row) * self.cols + self.col + self.offset
    }

    /// The state after deciding the current window: it is lit when `lit`;
    /// then the next row up, or once the column's height is reached, the next
    /// column is started.
    pub open spec fn after_window(self, lit: bool) -> SkylineState {
        let s = SkylineState {
            windows: if lit {
                self.windows.update(self.window_index(), true)
            } else {
                self.windows
            },
            row: self.row + 1,
            ..self
        };
        if s.row < s.height {
            s
        } else {
            SkylineState { offset: s.offset + 1, ..s }.enter_column()
        }
    }

    /// The generator's invariant.
    pub open spec fn inv(self) -> bool {
        &&& self.cols * self.rows <= usize::MAX
        &&& self.skyline.len() == self.cols
        &&& self.windows.len() == self.cols * self.rows
        &&& self.step != SkylineStep::Finished ==> self.rows >= MIN_SKYLINE_ROWS && self.col
            < self.cols
        &&& (self.step == SkylineStep::Height || self.step == SkylineStep::Window || self.step
            == SkylineStep::Gap) ==> MIN_BUILDING_WIDTH <= self.width < MIN_BUILDING_WIDTH
            + WIDTH_CHOICES
        &&& (self.step == SkylineStep::Window || self.step == SkylineStep::Gap) ==> MIN_BUILDING_HEIGHT
            <= self.height <= max_building_height(self.rows)
        &&& self.step == SkylineStep::Window ==> {
            &&& self.offset < self.width
            &&& self.col + self.offset < self.cols
            &&& self.row < self.height
            &&& self.skyline[(self.col + self.offset) as int] == self.height
        }
        &&& heights_valid(self.skyline, self.rows)
        &&& windows_inside_buildings(self.skyline, self.windows, self.cols, self.rows)
        &&& forall|x: int| self.frontier() <= x < self.cols ==> #[trigger] self.skyline[x] == 0
        &&& forall|i: int|
            0 <= i < self.windows.len() && self.frontier() <= col_of(i, self.cols as int)
                ==> !#[trigger] self.windows[i]
    }

    /// Ordering component: columns left to build on.
    pub open spec fn columns_left(self) -> nat {
        if self.step == SkylineStep::Finished || self.col >= self.cols {
            0
        } else {
            (self.cols - self.col) as nat
        }
    }

    /// Ordering component: stage within a building.
    pub open spec fn stage(self) -> nat {
        match self.step {
            SkylineStep::Width => 4,
            SkylineStep::Height => 3,
            SkylineStep::Window => 2,
            SkylineStep::Gap => 1,
            SkylineStep::Finished => 0,
        }
    }

    /// Ordering component: columns of the current building still to fill.
    pub open spec fn building_columns_left(self) -> nat {
        if self.step == SkylineStep::Window && self.offset < self.width {
            (self.width - self.offset) as nat
        } else {
            0
        }
    }

    /// Ordering component: windows of the current column still to decide.
    pub open spec fn column_windows_left(self) -> nat {
        if self.step == SkylineStep::Window && self.row < self.height {
            (self.height - self.row) as nat
        } else {
            0
        }
    }

    /// A natural number that shrinks with every draw fed to a consistent
    /// generator (see [`lemma_budget_decreases`]).
    pub open spec fn budget(self) -> nat {
        let r = self.rows + 1;
        self.columns_left() * (45 * r) + self.stage() * (9 * r) + self.building_columns_left() * r
            + self.column_windows_left()
    }

    /// `self` is strictly nearer the end of generation than `other`: the
    /// tuple (columns left, stage, building columns left, column windows
    /// left) of natural numbers is lexicographically smaller.
    pub open spec fn nearer_end_than(self, other: SkylineState) -> bool {
        ||| self.columns_left() < other.columns_left()
        ||| self.columns_left() == other.columns_left() && self.stage() < other.stage()
        ||| self.columns_left() == other.columns_left() && self.stage() == other.stage()
            && self.building_columns_left() < other.building_columns_left()
        ||| self.columns_left() == other.columns_left() && self.stage() == other.stage()
            && self.building_columns_left() == other.building_columns_left()
            && self.column_windows_left() < other.column_windows_left()
    }
}

/// Generator of the city skyline, driven by draws from an outside source.
pub struct SkylineBuilder {
    cols: usize,
    rows: usize,
    skyline: Vec<usize>,
    windows: Vec<bool>,
    col: usize,
    width: usize,
    height: usize,
    offset: usize,
    row: usize,
    step: SkylineStep,
}

impl View for SkylineBuilder {
    type V = SkylineState;

    closed spec fn view(&self) -> SkylineState {
        SkylineState {
            cols: self.cols as nat,
            rows: self.rows as nat,
            skyline: self.skyline@,
            windows: self.windows@,
            col: self.col as nat,
            width: self.width as nat,
            height: self.height as nat,
            offset: self.offset as nat,
            row: self.row as nat,
            step: self.step,
        }
    }
}

proof fn lemma_cols_small(cols: nat, rows: nat)
    requires
        cols * rows <= usize::MAX,
        rows >= MIN_SKYLINE_ROWS,
    ensures
        cols * 4 <= usize::MAX,
{
    assert(cols * 4 <= cols * rows) by (nonlinear_arith)
        requires
            rows >= 4,
    ;
}

impl SkylineBuilder {
    /// The builder is in a consistent state.
    pub open spec fn wf(&self) -> bool {
        self@.inv()
    }

    /// A generator for a `cols` by `rows` grid in the given style: no building
    /// yet, no lit window; it is finished at once for the empty-sky style, for
    /// fewer than 4 rows or for no columns.
    pub fn new(cols: usize, rows: usize, style: u32) -> (b: SkylineBuilder)
        requires
            cols * rows <= usize::MAX,
        ensures
            b.wf(),
            b@ == SkylineState::initial(cols as nat, rows as nat, style),
    {
        let mut skyline: Vec<usize> = Vec::new();
        let mut x: usize = 0;
        while x < cols
            invariant
                x <= cols,
                skyline@ == Seq::new(x as nat, |j: int| 0usize),
            decreases cols - x,
        {
            skyline.push(0);
            x += 1;
        }
        let n = cols * rows;
        let mut windows: Vec<bool> = Vec::new();
        let mut i: usize = 0;
        while i < n
            invariant
                i <= n,
                windows@ == Seq::new(i as nat, |j: int| false),
            decreases n - i,
        {
            windows.push(false);
            i += 1;
        }
        let step = if style == EMPTY_SKY_STYLE || rows < MIN_SKYLINE_ROWS || cols == 0 {
            SkylineStep::Finished
        } else {
            SkylineStep::Width
        };
        let b = SkylineBuilder {
            cols,
            rows,
            skyline,
            windows,
            col: 0,
            width: 0,
            height: 0,
            offset: 0,
            row: 0,
            step,
        };
        assert(b@ =~= SkylineState::initial(cols as nat, rows as nat, style));
        b
    }

    /// The draw the generator needs next.
    pub fn next_draw(&self) -> (d: SkylineDraw)
        ensures
            d == self@.request(),
    {
        match self.step {
            SkylineStep::Width => SkylineDraw::Uniform(WIDTH_CHOICES),
            SkylineStep::Height => SkylineDraw::Uniform(self.rows / 4),
            SkylineStep::Window => SkylineDraw::WindowLight,
            SkylineStep::Gap => SkylineDraw::Uniform(GAP_CHOICES),
            SkylineStep::Finished => SkylineDraw::Finished,
        }
    }

    /// Building heights by column.
    pub fn skyline(&self) -> (r: &Vec<usize>)
        ensures
            r@ == self@.skyline,
    {
        &self.skyline
    }

    /// Lit windows, row-major.
    pub fn windows(&self) -> (r: &Vec<bool>)
        ensures
            r@ == self@.windows,
    {
        &self.windows
    }

    /// Feeds a uniform draw `value` (below the requested bound): the width
    /// or height of the current building, or the gap after it.
    pub fn feed_uniform(&mut self, value: usize)
        requires
            old(self).wf(),
            old(self)@.request() matches SkylineDraw::Uniform(n) && value < n,
        ensures
            final(self).wf(),
            final(self)@ == old(self)@.after_uniform(value as nat),
            final(self)@.nearer_end_than(old(self)@),
    {
        proof {
            lemma_cols_small(self.cols as nat, self.rows as nat);
        }
        let ghost s0 = self@;
        match self.step {
            SkylineStep::Width => {
                self.width = MIN_BUILDING_WIDTH + value;
                self.step = SkylineStep::Height;
                assert(self@ =~= s0.after_uniform(value as nat));
            },
            SkylineStep::Height => {
                self.height = MIN_BUILDING_HEIGHT + value;
                self.offset = 0;
                let ghost s1 = self@;
                assert(s1 =~= SkylineState { height: (MIN_BUILDING_HEIGHT + value) as nat, offset: 0, ..s0 });
                self.enter_column();
                assert(self@ =~= s0.after_uniform(value as nat));
                assert forall|x: int| self@.frontier() <= x < self@.cols implies #[trigger] self@.skyline[x] == 0 by {
                    assert(s0.skyline[x] == 0);
                }
            },
            SkylineStep::Gap => {
                let next = self.col + self.width + value;
                self.col = next;
                self.step = if next < self.cols {
                    SkylineStep::Width
                } else {
                    SkylineStep::Finished
                };
                assert(self@ =~= s0.after_uniform(value as nat));
            },
            _ => {},
        }
    }

    /// Feeds whether the window being decided is lit.
    pub fn feed_window(&mut self, lit: bool)
        requires
            old(self).wf(),
            old(self)@.request() == SkylineDraw::WindowLight,
        ensures
            final(self).wf(),
            final(self)@ == old(self)@.after_window(lit),
            final(self)@.nearer_end_than(old(self)@),
    {
        proof {
            lemma_cols_small(self.cols as nat, self.rows as nat);
        }
        let ghost s0 = self@;
        let x = self.col + self.offset;
        let y = self.rows - 1 - self.row;
        proof {
            lemma_cell_in_grid(self.cols as int, self.rows as int, x as int, y as int);
        }
        if lit {
            let idx = y * self.cols + x;
            self.windows.set(idx, true);
        }
        self.row = self.row + 1;
        let ghost s1 = self@;
        assert(s1 =~= SkylineState {
            windows: if lit { s0.windows.update(s0.window_index(), true) } else { s0.windows },
            row: s0.row + 1,
            ..s0
        });
        assert forall|i: int| 0 <= i < s1.windows.len() && #[trigger] s1.windows[i] implies s1.rows - 1
            - row_of(i, s1.cols as int) < s1.skyline[col_of(i, s1.cols as int)] by {
            lemma_index_of_cell(i, s0.cols as int, x as int, y as int);
        }
        assert forall|i: int| 0 <= i < s1.windows.len() && s0.frontier() <= col_of(i, s1.cols as int)
            implies !#[trigger] s1.windows[i] by {
            lemma_index_of_cell(i, s0.cols as int, x as int, y as int);
        }
        if self.row >= self.height {
            self.offset = self.offset + 1;
            let ghost s2 = self@;
            assert(s2 =~= SkylineState { offset: s1.offset + 1, ..s1 });
            self.enter_column();
            assert(self@ =~= s0.after_window(lit));
            assert forall|x2: int| self@.frontier() <= x2 < self@.cols implies #[trigger] self@.skyline[x2] == 0 by {
                assert(s0.skyline[x2] == 0);
            }
            assert forall|i: int| 0 <= i < self@.windows.len() && #[trigger] self@.windows[i] implies self@.rows - 1
                - row_of(i, self@.cols as int) < self@.skyline[col_of(i, self@.cols as int)] by {
                assert(s1.windows[i]);
                assert(0 <= col_of(i, self@.cols as int) < self@.cols);
            }
        } else {
            assert(self@ =~= s0.after_window(lit));
        }
    }

    fn enter_column(&mut self)
        requires
            old(self)@.cols * old(self)@.rows <= usize::MAX,
            old(self)@.skyline.len() == old(self)@.cols,
            old(self)@.col < old(self)@.cols,
            old(self)@.height <= usize::MAX,
        ensures
            final(self)@ == old(self)@.enter_column(),
    {
        if self.offset < self.width && self.offset < self.cols - self.col {
            self.skyline.set(self.col + self.offset, self.height);
            self.row = 0;
            self.step = SkylineStep::Window;
        } else {
            self.step = SkylineStep::Gap;
        }
    }
}

/// The skyline being built is always well shaped: every column is empty or
/// holds a building 3 to `rows / 4 + 2` cells high, every lit window lies
/// inside the building of its column, and the building being laid out is 3
/// to 8 columns wide.  In particular this holds of the finished skyline.
pub proof fn lemma_skyline_well_shaped(b: &SkylineBuilder)
    requires
        b.wf(),
    ensures
        b@.skyline.len() == b@.cols,
        b@.windows.len() == b@.cols * b@.rows,
        forall|x: int|
            0 <= x < b@.cols ==> #[trigger] b@.skyline[x] == 0 || (3 <= b@.skyline[x] <= b@.rows / 4
                + 2),
        forall|i: int|
            0 <= i < b@.windows.len() && #[trigger] b@.windows[i] ==> b@.rows - 1 - i / (
            b@.cols as int) < b@.skyline[i % (b@.cols as int)],
        b@.step == SkylineStep::Height || b@.step == SkylineStep::Window || b@.step
            == SkylineStep::Gap ==> 3 <= b@.width <= 8,
{
}

/// What each draw does to a consistent generator: the width draw `v` makes
/// the building `3 + v` columns wide; the height draw `v` raises its first
/// column to `3 + v` cells; the gap draw `v` starts the next building `v`
/// columns after the current one ends; no size draw lights a window; an
/// unlit window draw lights nothing; and a lit one lights exactly the
/// window `row` cells above the bottom in column `col + offset`.
pub proof fn lemma_skyline_draws(s: SkylineState, v: nat)
    requires
        s.inv(),
        s.request() matches SkylineDraw::Uniform(n) ==> v < n,
    ensures
        s.step == SkylineStep::Width ==> s.after_uniform(v).width == 3 + v,
        s.step == SkylineStep::Height ==> s.after_uniform(v).skyline[s.col as int] == 3 + v,
        s.step == SkylineStep::Gap ==> s.after_uniform(v).col == s.col + s.width + v,
        s.step != SkylineStep::Window ==> s.after_uniform(v).windows == s.windows,
        s.step == SkylineStep::Window ==> s.after_window(false).windows == s.windows,
        s.step == SkylineStep::Window ==> forall|i: int|
            0 <= i < s.windows.len() ==> #[trigger] s.after_window(true).windows[i] == (s.windows[i]
                || (i % (s.cols as int) == s.col + s.offset && i / (s.cols as int) == s.rows - 1
                - s.row)),
{
    if s.step == SkylineStep::Height {
        assert(s.rows <= s.cols * s.rows) by (nonlinear_arith)
            requires
                s.cols >= 1,
        ;
        assert(v < s.rows / 4);
        let t = SkylineState { height: (MIN_BUILDING_HEIGHT + v) as nat, offset: 0, ..s };
        assert(s.after_uniform(v) == t.enter_column());
        assert(t.height as usize == 3 + v);
    }
    if s.step == SkylineStep::Window {
        assert forall|i: int|
            0 <= i < s.windows.len() implies #[trigger] s.after_window(true).windows[i] == (s.windows[i]
                || (i % (s.cols as int) == s.col + s.offset && i / (s.cols as int) == s.rows - 1
                - s.row)) by {
            lemma_index_of_cell(i, s.cols as int, (s.col + s.offset) as int, (s.rows - 1 - s.row) as int);
            lemma_cell_in_grid(s.cols as int, s.rows as int, (s.col + s.offset) as int, (s.rows - 1 - s.row) as int);
        }
    }
}

proof fn lemma_budget_parts(s: SkylineState)
    requires
        s.inv(),
    ensures
        s.stage() * (9 * (s.rows + 1)) + s.building_columns_left() * (s.rows + 1)
            + s.column_windows_left() < 45 * (s.rows + 1),
        s.building_columns_left() * (s.rows + 1) + s.column_windows_left() < 9 * (s.rows + 1),
        s.column_windows_left() < s.rows + 1,
{
    let r = s.rows + 1;
    let st = s.stage();
    let bl = s.building_columns_left();
    let cl = s.column_windows_left();
    assert(bl <= 8);
    assert(cl <= s.rows);
    assert(st <= 4);
    assert(st * (9 * r) + bl * r + cl < 45 * r) by (nonlinear_arith)
        requires
            st <= 4,
            bl <= 8,
            cl < r,
    ;
    assert(bl * r + cl < 9 * r) by (nonlinear_arith)
        requires
            bl <= 8,
            cl < r,
    ;
}

/// Every draw fed to the generator shrinks its budget, a natural number, so
/// whatever values the random source returns, generation finishes: a
/// consistent state nearer the end than another has a smaller budget.
pub proof fn lemma_budget_decreases(later: SkylineState, earlier: SkylineState)
    requires
        later.inv(),
        earlier.inv(),
        later.rows == earlier.rows,
        later.nearer_end_than(earlier),
    ensures
        later.budget() < earlier.budget(),
{
    lemma_budget_parts(later);
    lemma_budget_parts(earlier);
    let r = earlier.rows + 1;
    let (a1, a2, a3, a4) = (
        later.columns_left(),
        later.stage(),
        later.building_columns_left(),
        later.column_windows_left(),
    );
    let (b1, b2, b3, b4) = (
        earlier.columns_left(),
        earlier.stage(),
        earlier.building_columns_left(),
        earlier.column_windows_left(),
    );
    if a1 < b1 {
        assert(a1 * (45 * r) + a2 * (9 * r) + a3 * r + a4 < b1 * (45 * r)) by (nonlinear_arith)
            requires
                a1 < b1,
                a2 * (9 * r) + a3 * r + a4 < 45 * r,
        ;
    } else if a1 == b1 && a2 < b2 {
        assert(a2 * (9 * r) + a3 * r + a4 < b2 * (9 * r)) by (nonlinear_arith)
            requires
                a2 < b2,
                a3 * r + a4 < 9 * r,
        ;
    } else if a1 == b1 && a2 == b2 && a3 < b3 {
        assert(a3 * r + a4 < b3 * r) by (nonlinear_arith)
            requires
                a3 < b3,
                a4 < r,
        ;
    }
}

} // verus!
