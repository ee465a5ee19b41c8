//! Fixed-point circular hue arithmetic.
//!
//! A full turn of the hue circle is mapped bijectively onto the range of a
//! 32-bit integer: one hue unit is `360 / 2^32` degrees. Angles supplied by
//! callers are measured in millidegrees, so `360_000` millidegrees are one
//! full turn.

use vstd::prelude::*;
use vstd::arithmetic::div_mod::{
    lemma_div_is_ordered, lemma_mod_bound, lemma_mod_multiples_vanish,
};

verus! {

/// Number of fixed-point hue units in one full turn.
pub const UNITS_PER_TURN: u64 = 0x1_0000_0000;

/// Millidegrees in one full turn.
pub const MILLI_PER_TURN: u32 = 360_000;

/// Euclidean residue of an angle, in hue units, on the hue circle.
pub open spec fn wrap_units(x: int) -> int {
    x % (UNITS_PER_TURN as int)
}

/// Hue units reached by a hue of `h_milli` millidegrees, `0 <= h_milli < 360_000`:
/// the millidegree value scaled onto the 32-bit circle, truncated.
pub open spec fn units_of_milli(h_milli: int) -> int {
    h_milli * (UNITS_PER_TURN as int) / (MILLI_PER_TURN as int)
}

/// Signed fixed-point step encoding a signed millidegree step: the millidegree
/// value scaled onto the 32-bit circle, truncated toward zero, then saturated
/// to the signed 32-bit range.
pub open spec fn step_units_of_milli(md: int) -> int {
    let mag = (if md >= 0 { md } else { -md }) * (UNITS_PER_TURN as int) / (MILLI_PER_TURN as int);
    if md >= 0 {
        if mag > i32::MAX { i32::MAX as int } else { mag }
    } else {
        if mag >= 0x8000_0000 { i32::MIN as int } else { -mag }
    }
}

/// Reduce a signed count to its fixed-point residue on the hue circle.
pub fn units_mod_turn(x: i64) -> (r: u32)
    ensures
        r as int == wrap_units(x as int),
{
    // x + 2^64 is non-negative and, 2^64 being a multiple of 2^32, has the
    // same residue on the circle as x itself.
    let shifted: i128 = (x as i128) + 0x1_0000_0000_0000_0000i128;
    proof {
        lemma_mod_multiples_vanish(0x1_0000_0000int, x as int, 0x1_0000_0000int);
        lemma_mod_bound(shifted as int, 0x1_0000_0000int);
    }
    ((shifted as u128) % 0x1_0000_0000u128) as u32
}

/// Euclidean residue of a signed millidegree angle within one turn.
pub fn milli_mod_turn(x: i64) -> (r: u32)
    ensures
        r as int == (x as int) % (MILLI_PER_TURN as int),
{
    // 360_000 * 25_620_477_880_153 is at least 2^63, so the sum below is
    // non-negative, and adding that multiple of a turn keeps the residue.
    let shifted: i128 = (x as i128) + 360_000i128 * 25_620_477_880_153i128;
    proof {
        lemma_mod_multiples_vanish(25_620_477_880_153int, x as int, 360_000int);
        lemma_mod_bound(shifted as int, 360_000int);
    }
    ((shifted as u128) % 360_000u128) as u32
}

/// Convert a normalized millidegree hue to its fixed-point position.
pub fn units_from_milli(h_milli: u32) -> (r: u32)
    requires
        h_milli < MILLI_PER_TURN,
    ensures
        r as int == units_of_milli(h_milli as int),
{
    let wide: u64 = (h_milli as u64) * UNITS_PER_TURN / (MILLI_PER_TURN as u64);
    proof {
        lemma_div_is_ordered(
            h_milli as int * 0x1_0000_0000int,
            359_999int * 0x1_0000_0000int,
            360_000int,
        );
    }
    wide as u32
}

/// Convert a millidegree step magnitude and a sign choice to a signed
/// fixed-point step; `flip` negates the supplied value first.
pub fn step_units_from_milli(md: i64, flip: bool) -> (r: i32)
    ensures
        r as int == step_units_of_milli(if flip { -(md as int) } else { md as int }),
{
    let signed: i128 = if flip { -(md as i128) } else { md as i128 };
    let mag: u128 = (if signed >= 0 { signed } else { -signed }) as u128;
    proof {
        assert(mag <= 0x8000_0000_0000_0000u128);
        assert(mag * (UNITS_PER_TURN as u128) <= 0x8000_0000_0000_0000u128 * 0x1_0000_0000u128)
            by (nonlinear_arith)
            requires mag <= 0x8000_0000_0000_0000u128;
    }
    let units: u128 = mag * (UNITS_PER_TURN as u128) / (MILLI_PER_TURN as u128);
    if signed >= 0 {
        if units > 0x7fff_ffffu128 {
            i32::MAX
        } else {
            units as i32
        }
    } else {
        if units >= 0x8000_0000u128 {
            i32::MIN
        } else {
            -(units as i32)
        }
    }
}

} // verus!
