//! The hue-shift engine.
//!
//! A [`Rainbow`] owns an immutable base color and two signed fixed-point hue
//! steps, one per column and one per row. The hue of a cell is the base hue
//! advanced `col` column steps and `row` row steps on the 32-bit hue circle;
//! because one turn is exactly the range of a 32-bit integer, wraparound
//! arithmetic is exact and no drift accumulates however far a caller sweeps.

use vstd::prelude::*;
use vstd::arithmetic::div_mod::{
    lemma_add_mod_noop, lemma_add_mod_noop_right, lemma_mod_multiples_vanish,
    lemma_mod_sub_multiples_vanish, lemma_mul_mod_noop_general, lemma_small_mod,
};
use crate::angle::{units_mod_turn, wrap_units, UNITS_PER_TURN};
use crate::color::{hue_units_of, CellColor, LchColor};

verus! {

/// The hue-cycling color engine: a base color and one signed hue step per
/// axis. Built once, never mutated; every query is a pure function of the
/// `(row, col)` pair against this state.
#[derive(Clone, Copy, Debug, PartialEq, Eq, Structural)]
pub struct Rainbow {
    pub base: CellColor,
    pub col_step: i32,
    pub row_step: i32,
}

impl Rainbow {
    /// Lightness and chroma of the base color are non-negative.
    pub open spec fn wf(self) -> bool {
        self.base.l_milli >= 0 && self.base.c_milli >= 0
    }

    /// The exact hue position of a cell: the base hue advanced `col` column
    /// steps and `row` row steps, wrapped on the hue circle.
    pub open spec fn hue_units_at(self, row: int, col: int) -> int {
        wrap_units(self.base.h_units + col * self.col_step + row * self.row_step)
    }

    /// The color of a cell: the base color with its hue shifted to the cell's
    /// hue position.
    pub open spec fn cell_at(self, row: int, col: int) -> CellColor {
        CellColor {
            l_milli: self.base.l_milli,
            c_milli: self.base.c_milli,
            h_units: self.hue_units_at(row, col) as u32,
        }
    }

    /// Build an engine from a base color and the two per-axis steps. The hue
    /// is moved onto the fixed-point circle; the steps may be any signed
    /// value, including zero and the extremes of the range.
    pub fn new(base: LchColor, col_step: i32, row_step: i32) -> (e: Self)
        requires
            base.l_milli >= 0,
            base.c_milli >= 0,
        ensures
            e.base.l_milli == base.l_milli,
            e.base.c_milli == base.c_milli,
            e.base.h_units as int == hue_units_of(base.h_milli as int),
            e.col_step == col_step,
            e.row_step == row_step,
            e.wf(),
    {
        Rainbow { base: base.to_fixed(), col_step, row_step }
    }

    /// The color of the cell at `(row, col)`. Total: every representable pair
    /// yields a color, arbitrarily large sweeps simply wrap around the circle.
    pub fn color_at(&self, row: i64, col: i64) -> (c: CellColor)
        ensures
            c == self.cell_at(row as int, col as int),
    {
        let cu: u32 = units_mod_turn(col);
        let ru: u32 = units_mod_turn(row);
        let cs: u32 = units_mod_turn(self.col_step as i64);
        let rs: u32 = units_mod_turn(self.row_step as i64);
        let col_delta: u32 = cu.wrapping_mul(cs);
        let row_delta: u32 = ru.wrapping_mul(rs);
        let shifted: u32 = self.base.h_units.wrapping_add(col_delta).wrapping_add(row_delta);
        proof {
            let m = UNITS_PER_TURN as int;
            lemma_mul_mod_noop_general(col as int, self.col_step as int, m);
            lemma_mul_mod_noop_general(row as int, self.row_step as int, m);
            assert(col_delta as int == (col * self.col_step) % m);
            assert(row_delta as int == (row * self.row_step) % m);
            let partial = self.base.h_units.wrapping_add(col_delta);
            lemma_wrapping_add_is_mod(self.base.h_units, col_delta);
            lemma_add_mod_noop_right(self.base.h_units as int, col as int * self.col_step, m);
            assert(partial as int == (self.base.h_units + col * self.col_step) % m);
            lemma_wrapping_add_is_mod(partial, row_delta);
            lemma_add_mod_noop(
                self.base.h_units + col * self.col_step,
                row as int * self.row_step,
                m,
            );
            assert(shifted as int == self.hue_units_at(row as int, col as int));
        }
        CellColor { l_milli: self.base.l_milli, c_milli: self.base.c_milli, h_units: shifted }
    }
}

/// Periodicity: every engine repeats along the column axis. One full count of
/// `UNITS_PER_TURN` column steps returns the cumulative hue exactly to its
/// starting value, so that count is a period `P` with
/// `color_at(row, col + P) == color_at(row, col)` for every row and column —
/// in particular for every engine with a nonzero column step.
pub proof fn lemma_column_period(e: Rainbow, row: int, col: int)
    ensures
        e.cell_at(row, col + UNITS_PER_TURN) == e.cell_at(row, col),
{
    let m = UNITS_PER_TURN as int;
    let x = e.base.h_units + col * e.col_step + row * e.row_step;
    assert((col + m) * e.col_step == col * e.col_step + m * e.col_step) by (nonlinear_arith);
    lemma_mod_multiples_vanish(e.col_step as int, x, m);
}

/// Zero-step identity: an engine whose two steps are both zero colors every
/// cell of the grid identically.
pub proof fn lemma_zero_step_constant(e: Rainbow, r1: int, c1: int, r2: int, c2: int)
    requires
        e.col_step == 0,
        e.row_step == 0,
    ensures
        e.cell_at(r1, c1) == e.cell_at(r2, c2),
{
    assert(c1 * 0 == 0) by (nonlinear_arith);
    assert(r1 * 0 == 0) by (nonlinear_arith);
    assert(c2 * 0 == 0) by (nonlinear_arith);
    assert(r2 * 0 == 0) by (nonlinear_arith);
}

/// Determinism: two engines that hold identical parameters produce identical
/// colors at every cell — the color is a function of the engine's immutable
/// state and the queried position alone.
pub proof fn lemma_deterministic(e1: Rainbow, e2: Rainbow, row: int, col: int)
    requires
        e1.base == e2.base,
        e1.col_step == e2.col_step,
        e1.row_step == e2.row_step,
    ensures
        e1.cell_at(row, col) == e2.cell_at(row, col),
{
}

/// Wraparound exactness: stepping along a row by any count of columns whose
/// cumulative shift is a whole number of turns returns the hue bit-for-bit to
/// its starting fixed-point value — there is no drift.
pub proof fn lemma_wraparound_exact(e: Rainbow, n: int)
    requires
        wrap_units(n * e.col_step) == 0,
    ensures
        e.cell_at(0, n) == e.cell_at(0, 0),
{
    let m = UNITS_PER_TURN as int;
    lemma_add_mod_noop_right(e.base.h_units as int, n * e.col_step, m);
}

/// The color at the origin is exactly the engine's base color: shifting by
/// zero rows and zero columns changes nothing.
pub proof fn lemma_origin_is_base(e: Rainbow)
    ensures
        e.cell_at(0, 0) == e.base,
{
    lemma_small_mod(e.base.h_units as nat, UNITS_PER_TURN as nat);
}

/// A 32-bit wrapping addition lands on the sum's residue on the hue circle.
proof fn lemma_wrapping_add_is_mod(a: u32, b: u32)
    ensures
        vstd::wrapping::u32_specs::wrapping_add(a, b) as int == wrap_units(a + b),
{
    if a + b > u32::MAX {
        lemma_mod_sub_multiples_vanish(a as int + b as int, UNITS_PER_TURN as int);
        lemma_small_mod((a + b - UNITS_PER_TURN) as nat, UNITS_PER_TURN as nat);
    } else {
        lemma_small_mod((a + b) as nat, UNITS_PER_TURN as nat);
    }
}

} // verus!

