//! Resolution of user configuration into engine parameters.
//!
//! The resolver maps the user's options — explicit hue, lightness and chroma,
//! per-axis step magnitudes, a flag suppressing sign randomization — plus the
//! values drawn from a random source into the engine's construction
//! parameters. The mapping itself is a pure, verified function of the drawn
//! values; the draws are the only unverified step and promise nothing beyond
//! their range.

use vstd::prelude::*;
use rand::Rng;
use rand::rngs::SmallRng;
use crate::angle::{step_units_from_milli, step_units_of_milli, MILLI_PER_TURN};
use crate::color::LchColor;

verus! {

/// The user's configuration, in fixed point: step magnitudes and hue in
/// millidegrees, lightness and chroma in thousandths of their nominal unit.
#[derive(Clone, Copy, Debug)]
pub struct RainbowCmd {
    /// How much the hue gets shifted every column, in millidegrees.
    pub shift_col_milli: i64,
    /// How much the hue gets shifted every row, in millidegrees.
    pub shift_row_milli: i64,
    /// Keep the supplied sign of both shift values instead of randomizing it.
    pub shift_sign_no_random: bool,
    /// Initial hue in millidegrees; drawn at random when absent.
    pub hue_milli: Option<i64>,
    /// Initial lightness, in thousandths.
    pub luminance_milli: i64,
    /// Initial chroma, in thousandths.
    pub chroma_milli: i64,
}

/// The signed millidegree step an axis ends up with: the supplied value keeps
/// its sign when randomization is suppressed or the drawn sign is positive,
/// and is negated otherwise.
pub open spec fn signed_step_milli(mag_milli: int, no_random: bool, positive: bool) -> int {
    if no_random || positive {
        mag_milli
    } else {
        -mag_milli
    }
}

impl Default for RainbowCmd {
    /// The stock configuration: a 1.6 degree column shift, a 3.2 degree row
    /// shift, randomized signs, a random hue, lightness 50 and chroma 128.
    fn default() -> (c: Self)
        ensures
            c.shift_col_milli == 1600,
            c.shift_row_milli == 3200,
            !c.shift_sign_no_random,
            c.hue_milli is None,
            c.luminance_milli == 50_000,
            c.chroma_milli == 128_000,
    {
        RainbowCmd {
            shift_col_milli: 1600,
            shift_row_milli: 3200,
            shift_sign_no_random: false,
            hue_milli: None,
            luminance_milli: 50_000,
            chroma_milli: 128_000,
        }
    }
}

impl RainbowCmd {
    /// Map the options and the values drawn from the random source to the
    /// engine's construction parameters: the base color and the two signed
    /// fixed-point steps. Lightness and chroma pass through unchanged; an
    /// explicit hue wins over the drawn one; each axis's step is derived from
    /// that axis's own magnitude and its own drawn sign.
    pub fn resolve(&self, random_hue_milli: u32, col_positive: bool, row_positive: bool) -> (out: (
        LchColor,
        i32,
        i32,
    ))
        ensures
            out.0.l_milli == self.luminance_milli,
            out.0.c_milli == self.chroma_milli,
            out.0.h_milli as int == (match self.hue_milli {
                Some(h) => h as int,
                None => random_hue_milli as int,
            }) % (MILLI_PER_TURN as int),
            out.0.wf(),
            out.1 as int == step_units_of_milli(
                signed_step_milli(
                    self.shift_col_milli as int,
                    self.shift_sign_no_random,
                    col_positive,
                ),
            ),
            out.2 as int == step_units_of_milli(
                signed_step_milli(
                    self.shift_row_milli as int,
                    self.shift_sign_no_random,
                    row_positive,
                ),
            ),
    {
        let h: i64 = match self.hue_milli {
            Some(h) => h,
            None => random_hue_milli as i64,
        };
        let color = LchColor::new(self.luminance_milli, self.chroma_milli, h);
        let col_step = step_units_from_milli(
            self.shift_col_milli,
            !(self.shift_sign_no_random || col_positive),
        );
        let row_step = step_units_from_milli(
            self.shift_row_milli,
            !(self.shift_sign_no_random || row_positive),
        );
        (color, col_step, row_step)
    }

    /// Resolve against a live random source. The source decides the base hue
    /// when none was supplied and the sign of each axis's step unless sign
    /// randomization is suppressed; whatever it returns, the magnitudes, the
    /// pass-through of lightness and chroma, an explicit hue, and suppressed
    /// randomization are honored exactly.
    pub fn resolve_with_rng(&self, rng: &mut SmallRng) -> (out: (LchColor, i32, i32))
        ensures
            out.0.l_milli == self.luminance_milli,
            out.0.c_milli == self.chroma_milli,
            out.0.wf(),
            self.hue_milli matches Some(h) ==> out.0.h_milli as int == (h as int) % (
            MILLI_PER_TURN as int),
            self.shift_sign_no_random ==> out.1 as int == step_units_of_milli(
                self.shift_col_milli as int,
            ),
            self.shift_sign_no_random ==> out.2 as int == step_units_of_milli(
                self.shift_row_milli as int,
            ),
            out.1 as int == step_units_of_milli(self.shift_col_milli as int) || out.1 as int
                == step_units_of_milli(-(self.shift_col_milli as int)),
            out.2 as int == step_units_of_milli(self.shift_row_milli as int) || out.2 as int
                == step_units_of_milli(-(self.shift_row_milli as int)),
    {
        let random_hue_milli: u32 = match self.hue_milli {
            Some(_) => 0,
            None => draw_hue_milli(rng),
        };
        let col_positive: bool = self.shift_sign_no_random || draw_bool(rng);
        let row_positive: bool = self.shift_sign_no_random || draw_bool(rng);
        self.resolve(random_hue_milli, col_positive, row_positive)
    }
}

/// Relies on rand's `Rng::gen_range` over `0..360_000`: the sample lies in
/// that range, so it is a millidegree hue within one turn; nothing else is
/// assumed of it. The range is never empty, so the call cannot panic.
#[verifier::external_body]
fn draw_hue_milli(rng: &mut SmallRng) -> (r: u32)
    ensures
        r < MILLI_PER_TURN,
{
    rng.gen_range(0..MILLI_PER_TURN)
}

/// Relies on rand's `Rng::gen::<bool>`: a coin flip; nothing is assumed of
/// the outcome.
#[verifier::external_body]
fn draw_bool(rng: &mut SmallRng) -> bool {
    rng.gen()
}

/// The random source the resolver draws from: rand's small, seedable
/// generator.
#[verifier::external_type_specification]
#[verifier::external_body]
pub struct ExSmallRng(SmallRng);

} // verus!
