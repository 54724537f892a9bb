use vstd::prelude::*;

verus! {

/// A whole cell measured in millicells: positions carry sub-cell precision
/// as integer thousandths of a terminal cell.
pub const MILLICELLS_PER_CELL: i64 = 1000;

/// The largest advance a single movement step may apply, in millicells.
/// Far beyond any playable field; it only keeps the arithmetic total.
pub const MAX_STEP_MILLICELLS: u64 = 1_000_000_000_000;

/// One of the four unit directions on the cell grid, encoded as small
/// integer deltas: `x` grows to the right, `y` grows downward.
#[derive(Clone, Copy, PartialEq, Eq, Structural, Debug)]
pub struct Direction {
    pub x: i8,
    pub y: i8,
}

impl Direction {
    pub open spec fn up_spec() -> Direction {
        Direction { x: 0, y: -1i8 }
    }

    pub open spec fn down_spec() -> Direction {
        Direction { x: 0, y: 1 }
    }

    pub open spec fn right_spec() -> Direction {
        Direction { x: 1, y: 0 }
    }

    pub open spec fn left_spec() -> Direction {
        Direction { x: -1i8, y: 0 }
    }

    /// A direction is canonical when it is one of the four unit vectors.
    pub open spec fn is_canonical(self) -> bool {
        self == Direction::up_spec() || self == Direction::down_spec()
            || self == Direction::right_spec() || self == Direction::left_spec()
    }

    pub fn up() -> (d: Direction)
        ensures
            d == Direction::up_spec(),
    {
        Direction { x: 0, y: -1 }
    }

    pub fn down() -> (d: Direction)
        ensures
            d == Direction::down_spec(),
    {
        Direction { x: 0, y: 1 }
    }

    pub fn right() -> (d: Direction)
        ensures
            d == Direction::right_spec(),
    {
        Direction { x: 1, y: 0 }
    }

    pub fn left() -> (d: Direction)
        ensures
            d == Direction::left_spec(),
    {
        Direction { x: -1, y: 0 }
    }

    /// The direction pointing the opposite way.
    pub open spec fn opposite_spec(self) -> Direction {
        Direction { x: (0 - self.x as int) as i8, y: (0 - self.y as int) as i8 }
    }

    pub fn opposite(self) -> (d: Direction)
        requires
            self.is_canonical(),
        ensures
            d == self.opposite_spec(),
            d.is_canonical(),
    {
        Direction { x: -self.x, y: -self.y }
    }

    /// The glyph the renderer shows for this direction.
    pub open spec fn glyph_spec(self) -> char {
        if self == Direction::up_spec() {
            '^'
        } else if self == Direction::down_spec() {
            'v'
        } else if self == Direction::right_spec() {
            '>'
        } else if self == Direction::left_spec() {
            '<'
        } else {
            '*'
        }
    }

    pub fn glyph(self) -> (c: char)
        ensures
            c == self.glyph_spec(),
    {
        if self.x == 0 && self.y == -1 {
            '^'
        } else if self.x == 0 && self.y == 1 {
            'v'
        } else if self.x == 1 && self.y == 0 {
            '>'
        } else if self.x == -1 && self.y == 0 {
            '<'
        } else {
            '*'
        }
    }
}

/// Turning around twice leads back to the starting direction.
pub proof fn lemma_opposite_involution(d: Direction)
    requires
        d.is_canonical(),
    ensures
        d.opposite_spec().opposite_spec() == d,
        d.opposite_spec().is_canonical(),
{
}

/// No two of the four canonical directions coincide.
pub proof fn lemma_directions_distinct()
    ensures
        Direction::up_spec() != Direction::down_spec(),
        Direction::up_spec() != Direction::left_spec(),
        Direction::up_spec() != Direction::right_spec(),
        Direction::down_spec() != Direction::left_spec(),
        Direction::down_spec() != Direction::right_spec(),
        Direction::left_spec() != Direction::right_spec(),
{
}

/// The integer `v` clamped to the range of `i64`.
pub open spec fn clamp_i64(v: int) -> int {
    if v > i64::MAX as int {
        i64::MAX as int
    } else if v < i64::MIN as int {
        i64::MIN as int
    } else {
        v
    }
}

/// The sum of `a` and `b`, clamped to the range of `i64`.
fn clamped_sum(a: i64, b: i64) -> (r: i64)
    ensures
        r as int == clamp_i64(a + b),
{
    match a.checked_add(b) {
        Some(s) => s,
        None => if b >= 0 {
            i64::MAX
        } else {
            i64::MIN
        },
    }
}

/// One axis of a direction scaled by a step length.
fn scaled_delta(unit: i8, steps: i64) -> (r: i64)
    requires
        -1 <= unit <= 1,
        0 <= steps,
    ensures
        r == unit * steps,
{
    if unit < 0 {
        proof {
            assert(unit * steps == -steps) by (nonlinear_arith)
                requires
                    unit == -1,
            ;
        }
        -steps
    } else if unit > 0 {
        proof {
            assert(unit * steps == steps) by (nonlinear_arith)
                requires
                    unit == 1,
            ;
        }
        steps
    } else {
        proof {
            assert(unit * steps == 0) by (nonlinear_arith)
                requires
                    unit == 0,
            ;
        }
        0
    }
}

/// The cell a millicell coordinate falls in: the nearest whole cell, halves
/// rounding up, with everything left of cell zero collapsing onto it, as a
/// screen coordinate must.
pub open spec fn cell_of(v: int) -> int {
    if v < 0 {
        0
    } else {
        (v + 500) / 1000
    }
}

fn cell_coordinate(v: i64) -> (c: u64)
    ensures
        c as int == cell_of(v as int),
{
    if v < 0 {
        0
    } else {
        let w = v as u64;
        let q = w / 1000;
        let r = w % 1000;
        proof {
            assert(w == 1000 * q + r && r < 1000) by {
                vstd::arithmetic::div_mod::lemma_fundamental_div_mod(w as int, 1000);
            }
            assert((w as int + 500) / 1000 == q + if r >= 500 { 1int } else { 0int }) by {
                vstd::arithmetic::div_mod::lemma_fundamental_div_mod_converse(
                    w as int + 500,
                    1000,
                    q as int + if r >= 500 { 1int } else { 0int },
                    r as int + 500 - if r >= 500 { 1000int } else { 0int },
                );
            }
        }
        if r >= 500 {
            q + 1
        } else {
            q
        }
    }
}

/// A point of the play field, in millicells along each axis. Collision and
/// rendering see only the cell it rounds to; movement keeps the full
/// sub-cell precision.
#[derive(Clone, Copy, Debug)]
pub struct Position {
    pub x: i64,
    pub y: i64,
}

impl Position {
    /// The discrete screen cell this position occupies.
    pub fn get_screen_coordinates(&self) -> (c: (u64, u64))
        ensures
            c.0 as int == cell_of(self.x as int),
            c.1 as int == cell_of(self.y as int),
    {
        (cell_coordinate(self.x), cell_coordinate(self.y))
    }

    /// Two positions collide exactly when they round to the same cell.
    pub open spec fn same_cell(self, other: Position) -> bool {
        cell_of(self.x as int) == cell_of(other.x as int)
            && cell_of(self.y as int) == cell_of(other.y as int)
    }

    /// The position reached by moving `steps` millicells along `d`.
    pub open spec fn advanced_spec(self, d: Direction, steps: int) -> Position {
        Position {
            x: clamp_i64(self.x + d.x * steps) as i64,
            y: clamp_i64(self.y + d.y * steps) as i64,
        }
    }

    pub fn advanced(self, d: Direction, steps_millicells: u64) -> (r: Position)
        requires
            d.is_canonical(),
            steps_millicells <= MAX_STEP_MILLICELLS,
        ensures
            r == self.advanced_spec(d, steps_millicells as int),
    {
        let steps = steps_millicells as i64;
        let sx = scaled_delta(d.x, steps);
        let sy = scaled_delta(d.y, steps);
        Position { x: clamped_sum(self.x, sx), y: clamped_sum(self.y, sy) }
    }

    /// The position one whole cell behind this one, against `d`.
    pub open spec fn cell_behind_spec(self, d: Direction) -> Position {
        Position {
            x: clamp_i64(self.x - d.x * 1000) as i64,
            y: clamp_i64(self.y - d.y * 1000) as i64,
        }
    }

    pub fn cell_behind(self, d: Direction) -> (r: Position)
        requires
            d.is_canonical(),
        ensures
            r == self.cell_behind_spec(d),
    {
        let sx = scaled_delta(d.x, MILLICELLS_PER_CELL);
        let sy = scaled_delta(d.y, MILLICELLS_PER_CELL);
        Position { x: clamped_sum(self.x, -sx), y: clamped_sum(self.y, -sy) }
    }
}

impl PartialEq for Position {
    /// Equality on positions is equality of the cells they round to.
    fn eq(&self, other: &Position) -> (r: bool) {
        let a = self.get_screen_coordinates();
        let b = other.get_screen_coordinates();
        a.0 == b.0 && a.1 == b.1
    }
}

impl vstd::std_specs::cmp::PartialEqSpecImpl for Position {
    open spec fn obeys_eq_spec() -> bool {
        true
    }

    open spec fn eq_spec(&self, other: &Position) -> bool {
        self.same_cell(*other)
    }
}

/// Cell equality is reflexive whatever the raw millicell values are.
pub proof fn lemma_same_cell_reflexive(p: Position)
    ensures
        p.same_cell(p),
{
}

/// A whole-cell move along the positive axis shifts the rounded cell by
/// exactly one, as long as the coordinate stays in the non-saturated range.
pub proof fn lemma_cell_shift_one(v: int)
    requires
        0 <= v,
        v + 1000 <= i64::MAX as int,
    ensures
        cell_of(v + 1000) == cell_of(v) + 1,
{
    vstd::arithmetic::div_mod::lemma_div_plus_one(v + 500, 1000);
}

/// A half-cell move from the back half of a cell stays inside that cell.
pub proof fn lemma_half_step_same_cell(v: int)
    requires
        0 <= v,
        v % 1000 >= 500,
        v + 500 <= i64::MAX as int,
    ensures
        cell_of(v + 500) == cell_of(v),
{
    let q = v / 1000;
    let r = v % 1000;
    vstd::arithmetic::div_mod::lemma_fundamental_div_mod(v, 1000);
    vstd::arithmetic::div_mod::lemma_fundamental_div_mod_converse(v + 500, 1000, q + 1, r - 500);
    vstd::arithmetic::div_mod::lemma_fundamental_div_mod_converse(v + 1000, 1000, q + 1, r);
}

/// Stepping one whole cell backwards against a canonical direction always
/// lands in a different, adjacent cell, as long as the coordinates stay
/// inside the non-saturated, non-negative range.
pub proof fn lemma_cell_behind_changes_cell(p: Position, d: Direction)
    requires
        d.is_canonical(),
        1000 <= p.x,
        1000 <= p.y,
        p.x + 1000 <= i64::MAX as int,
        p.y + 1000 <= i64::MAX as int,
    ensures
        !p.cell_behind_spec(d).same_cell(p),
{
    if d == Direction::right_spec() {
        lemma_cell_shift_one(p.x - 1000);
    } else if d == Direction::left_spec() {
        lemma_cell_shift_one(p.x as int);
    } else if d == Direction::down_spec() {
        lemma_cell_shift_one(p.y - 1000);
    } else {
        lemma_cell_shift_one(p.y as int);
    }
}

/// How fast the snake moves: the wall-clock period of one whole-cell step.
#[derive(Clone, Copy, Debug)]
pub struct Speed {
    period_in_milliseconds: u128,
}

impl Speed {
    /// The period of one whole-cell step, in milliseconds.
    pub closed spec fn period(self) -> int {
        self.period_in_milliseconds as int
    }

    pub fn period_in_milliseconds(period_in_milliseconds: u128) -> (s: Speed)
        ensures
            s.period() == period_in_milliseconds,
    {
        Speed { period_in_milliseconds }
    }

    pub fn _period_in_seconds(period_in_seconds: u128) -> (s: Speed)
        requires
            period_in_seconds * 1000 <= u128::MAX,
        ensures
            s.period() == period_in_seconds * 1000,
    {
        Speed { period_in_milliseconds: period_in_seconds * 1000 }
    }

    /// How far a body moving at this speed travels in `elapsed_ms`
    /// milliseconds, in millicells, capped at `MAX_STEP_MILLICELLS`.
    pub open spec fn steps_millicells_spec(self, elapsed_ms: int) -> int {
        let q = (elapsed_ms * 1000) / self.period();
        if q > MAX_STEP_MILLICELLS as int {
            MAX_STEP_MILLICELLS as int
        } else {
            q
        }
    }

    pub fn get_period_in_milliseconds(&self) -> (p: u128)
        ensures
            p == self.period(),
    {
        self.period_in_milliseconds
    }

    /// At the default one-cell-per-100-ms speed, half a period covers
    /// half a cell and a full period covers exactly one cell.
    pub proof fn lemma_tick_distance(self)
        requires
            self.period() == 100,
        ensures
            self.steps_millicells_spec(50) == 500,
            self.steps_millicells_spec(100) == 1000,
    {
    }

    pub fn steps_millicells(&self, elapsed_ms: u64) -> (steps: u64)
        requires
            self.period() >= 1,
        ensures
            steps as int == self.steps_millicells_spec(elapsed_ms as int),
            steps <= MAX_STEP_MILLICELLS,
    {
        let product = (elapsed_ms as u128) * 1000;
        let q = product / self.period_in_milliseconds;
        if q > MAX_STEP_MILLICELLS as u128 {
            MAX_STEP_MILLICELLS
        } else {
            q as u64
        }
    }
}

} // verus!
