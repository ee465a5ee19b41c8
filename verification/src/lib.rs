//! Deterministic rainbow coloring for text grids.
//!
//! The crate models a hue angle as a fixed-point value over the full range of
//! a 32-bit integer, so that integer wraparound is exactly angular wraparound:
//! advancing the hue per row and per column never accumulates rounding error.
//! A [`engine::Rainbow`] engine turns a `(row, col)` position into an RGB
//! color by shifting the hue of its base CIE L*C*h color and converting the
//! result to sRGB.

pub mod angle;
pub mod color;
pub mod config;
pub mod engine;
