//! Color value types.
//!
//! Colors are carried in fixed point: lightness and chroma in thousandths of
//! their nominal CIE L*C*h unit, hue either in millidegrees (as supplied by a
//! caller) or in exact 32-bit hue units (as computed by the engine). The
//! mapping to an sRGB triple is floating-point work and happens outside this
//! library, at the output boundary; every value this library produces
//! determines that triple exactly.

use vstd::prelude::*;
use crate::angle::{milli_mod_turn, units_from_milli, units_of_milli, MILLI_PER_TURN};

verus! {

/// A CIE L*C*h color as a caller supplies it: lightness and chroma in
/// thousandths, hue in millidegrees, normalized into one turn.
#[derive(Clone, Copy, Debug, PartialEq, Eq, Structural)]
pub struct LchColor {
    pub l_milli: i64,
    pub c_milli: i64,
    pub h_milli: u32,
}

/// A CIE L*C*h color with its hue held as an exact position on the 32-bit
/// fixed-point hue circle: the form the engine computes per cell, and the only
/// form handed to the output boundary.
#[derive(Clone, Copy, Debug, PartialEq, Eq, Structural)]
pub struct CellColor {
    pub l_milli: i64,
    pub c_milli: i64,
    pub h_units: u32,
}

/// The error reported when a caller hands the library a color component that
/// has no finite numeric value.
#[derive(Clone, Copy, Debug, PartialEq, Eq, Structural)]
pub enum ColorError {
    InvalidColorComponent,
}

/// The fixed-point hue position of an arbitrary millidegree hue, after
/// normalization into one turn.
pub open spec fn hue_units_of(h_milli: int) -> int {
    units_of_milli(h_milli % (MILLI_PER_TURN as int))
}

impl LchColor {
    /// A constructed color always carries a hue normalized into one turn.
    pub open spec fn wf(self) -> bool {
        self.h_milli < MILLI_PER_TURN
    }

    /// Build a color from fixed-point components, normalizing the hue into
    /// `[0, 360)` degrees.
    pub fn new(l_milli: i64, c_milli: i64, h_milli: i64) -> (c: Self)
        ensures
            c.l_milli == l_milli,
            c.c_milli == c_milli,
            c.h_milli as int == (h_milli as int) % (MILLI_PER_TURN as int),
            c.wf(),
    {
        proof {
            vstd::arithmetic::div_mod::lemma_mod_bound(h_milli as int, MILLI_PER_TURN as int);
        }
        LchColor { l_milli, c_milli, h_milli: milli_mod_turn(h_milli) }
    }

    /// The same color with its hue moved onto the fixed-point circle.
    pub fn to_fixed(&self) -> (c: CellColor)
        ensures
            c.l_milli == self.l_milli,
            c.c_milli == self.c_milli,
            c.h_units as int == hue_units_of(self.h_milli as int),
    {
        let h_norm: u32 = self.h_milli % MILLI_PER_TURN;
        proof {
            vstd::arithmetic::div_mod::lemma_mod_bound(self.h_milli as int, MILLI_PER_TURN as int);
        }
        CellColor { l_milli: self.l_milli, c_milli: self.c_milli, h_units: units_from_milli(h_norm) }
    }
}

} // verus!
