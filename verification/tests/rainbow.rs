use lolcrab::angle::{
    milli_mod_turn, step_units_from_milli, units_from_milli, units_mod_turn,
};
use lolcrab::color::{CellColor, LchColor};
use lolcrab::config::RainbowCmd;
use lolcrab::engine::Rainbow;
use rand::rngs::SmallRng;
use rand::SeedableRng;
use scarlet::color::{Color, RGBColor};
use scarlet::colors::CIELCHColor;

/// The output-boundary conversion: a cell color to an 8-bit sRGB triple.
fn to_rgb(c: &CellColor) -> (u8, u8, u8) {
    let lch = CIELCHColor {
        l: c.l_milli as f64 / 1000.0,
        c: c.c_milli as f64 / 1000.0,
        h: c.h_units as f64 * (360.0 / 4294967296.0),
    };
    let rgb: RGBColor = lch.convert();
    rgb.int_rgb_tup()
}

fn base_50_128_0() -> LchColor {
    LchColor::new(50_000, 128_000, 0)
}

#[test]
fn angle_residues() {
    assert_eq!(units_mod_turn(0), 0);
    assert_eq!(units_mod_turn(4294967296), 0);
    assert_eq!(units_mod_turn(4294967297), 1);
    assert_eq!(units_mod_turn(-1), 4294967295);
    assert_eq!(units_mod_turn(i64::MIN), 0);
    assert_eq!(milli_mod_turn(0), 0);
    assert_eq!(milli_mod_turn(725_000), 5_000);
    assert_eq!(milli_mod_turn(-90_000), 270_000);
    assert_eq!(milli_mod_turn(360_000), 0);
}

#[test]
fn step_units_formula_exact() {
    // 1.6 degrees: 1_600 * 2^32 / 360_000 truncated.
    assert_eq!(step_units_from_milli(1600, false), 19088743);
    assert_eq!(step_units_from_milli(1600, true), -19088743);
    // 3.2 degrees.
    assert_eq!(step_units_from_milli(3200, false), 38177487);
    assert_eq!(step_units_from_milli(0, false), 0);
    assert_eq!(step_units_from_milli(0, true), 0);
    // 360 degrees is one full turn: saturates at the signed 32-bit range.
    assert_eq!(step_units_from_milli(360_000, false), i32::MAX);
    assert_eq!(step_units_from_milli(360_000, true), i32::MIN);
    assert_eq!(step_units_from_milli(i64::MAX, false), i32::MAX);
    assert_eq!(step_units_from_milli(i64::MAX, true), i32::MIN);
    assert_eq!(step_units_from_milli(i64::MIN, false), i32::MIN);
    // Half a turn just fits the positive range's edge.
    assert_eq!(step_units_from_milli(180_000, false), i32::MAX);
    assert_eq!(step_units_from_milli(179_999, false), 2147471717);
}

#[test]
fn hue_units_of_milli_exact() {
    assert_eq!(units_from_milli(0), 0);
    assert_eq!(units_from_milli(1600), 19088743);
    assert_eq!(units_from_milli(359_999), 4294955365);
}

#[test]
fn lch_construction_normalizes_hue() {
    let c = LchColor::new(50_000, 128_000, -90_000);
    assert_eq!(c.h_milli, 270_000);
    assert_eq!(c.l_milli, 50_000);
    assert_eq!(c.c_milli, 128_000);
    let d = LchColor::new(1, 2, 725_000);
    assert_eq!(d.h_milli, 5_000);
}

#[test]
fn origin_is_base_color() {
    let e = Rainbow::new(base_50_128_0(), 19088743, 0);
    let origin = e.color_at(0, 0);
    assert_eq!(origin, e.base);
    assert_eq!(to_rgb(&origin), to_rgb(&base_50_128_0().to_fixed()));
}

#[test]
fn zero_step_engine_is_constant() {
    let e = Rainbow::new(LchColor::new(60_000, 40_000, 123_456), 0, 0);
    let c = e.color_at(0, 0);
    assert_eq!(e.color_at(17, 3), c);
    assert_eq!(e.color_at(-5, 1_000_000), c);
    assert_eq!(e.color_at(i64::MAX, i64::MIN), c);
}

#[test]
fn column_period_is_exact() {
    let e = Rainbow::new(base_50_128_0(), 19088743, 38177487);
    assert_eq!(e.color_at(2, 5 + 4294967296), e.color_at(2, 5));
    assert_eq!(e.color_at(-3, -7 - 4294967296), e.color_at(-3, -7));
}

#[test]
fn identical_engines_agree() {
    let e1 = Rainbow::new(base_50_128_0(), -19088743, 38177487);
    let e2 = Rainbow::new(base_50_128_0(), -19088743, 38177487);
    for (row, col) in [(0i64, 0i64), (1, 1), (-9, 40), (1 << 40, -(1 << 50))] {
        assert_eq!(e1.color_at(row, col), e2.color_at(row, col));
    }
}

#[test]
fn full_range_step_wraps_bit_for_bit() {
    // Four quarter-turn steps are exactly one turn of the 32-bit circle.
    let quarter: i32 = 1 << 30;
    let e = Rainbow::new(base_50_128_0(), quarter, 0);
    assert_eq!(e.color_at(0, 4), e.color_at(0, 0));
    assert_ne!(e.color_at(0, 2).h_units, e.color_at(0, 0).h_units);
    // The most negative step wraps after two columns.
    let f = Rainbow::new(base_50_128_0(), i32::MIN, 0);
    assert_eq!(e.color_at(0, 0).h_units, f.color_at(0, 2).h_units);
}

#[test]
fn negative_indices_wrap_backwards() {
    let e = Rainbow::new(base_50_128_0(), 19088743, 0);
    assert_eq!(e.color_at(0, -1).h_units, (4294967296u64 - 19088743) as u32);
    assert_eq!(e.color_at(0, -1).h_units, e.color_at(0, 4294967295).h_units);
}

#[test]
fn concrete_scenario_one_point_six_degrees() {
    // Base LCH(50, 128, 0 degrees), column step +1.6 degrees, row step 0.
    let cmd = RainbowCmd {
        shift_col_milli: 1600,
        shift_row_milli: 0,
        shift_sign_no_random: true,
        hue_milli: Some(0),
        luminance_milli: 50_000,
        chroma_milli: 128_000,
    };
    let (color, col_step, row_step) = cmd.resolve(0, true, true);
    assert_eq!(color.h_milli, 0);
    assert_eq!(col_step, 19088743);
    assert_eq!(row_step, 0);
    let e = Rainbow::new(color, col_step, row_step);
    // The origin is the conversion of the base color itself.
    assert_eq!(to_rgb(&e.color_at(0, 0)), to_rgb(&base_50_128_0().to_fixed()));
    // 225 * 1.6 degrees is 360 degrees: one full turn later the output color
    // has returned to the starting one.
    assert_eq!(to_rgb(&e.color_at(0, 225)), to_rgb(&e.color_at(0, 0)));
}

#[test]
fn resolve_sign_sequence() {
    let cmd = RainbowCmd {
        shift_sign_no_random: false,
        ..RainbowCmd::default()
    };
    // Drawn signs (+, +): both steps keep their sign.
    let (_, cs, rs) = cmd.resolve(0, true, true);
    assert_eq!((cs, rs), (19088743, 38177487));
    // Drawn signs (-, -): both steps are negated.
    let (_, cs, rs) = cmd.resolve(0, false, false);
    assert_eq!((cs, rs), (-19088743, -38177487));
    // Mixed draws flip exactly the axis they belong to.
    let (_, cs, rs) = cmd.resolve(0, true, false);
    assert_eq!((cs, rs), (19088743, -38177487));
    let (_, cs, rs) = cmd.resolve(0, false, true);
    assert_eq!((cs, rs), (-19088743, 38177487));
}

#[test]
fn no_random_keeps_supplied_signs() {
    let cmd = RainbowCmd {
        shift_sign_no_random: true,
        ..RainbowCmd::default()
    };
    let (_, cs, rs) = cmd.resolve(0, false, false);
    assert_eq!((cs, rs), (19088743, 38177487));
}

#[test]
fn resolve_uses_explicit_hue() {
    let cmd = RainbowCmd {
        hue_milli: Some(-90_000),
        ..RainbowCmd::default()
    };
    let (color, _, _) = cmd.resolve(123, true, true);
    assert_eq!(color.h_milli, 270_000);
    assert_eq!(color.l_milli, 50_000);
    assert_eq!(color.c_milli, 128_000);
}

#[test]
fn resolve_uses_drawn_hue_when_unspecified() {
    let cmd = RainbowCmd::default();
    let (color, _, _) = cmd.resolve(123_456, true, true);
    assert_eq!(color.h_milli, 123_456);
}

#[test]
fn default_configuration() {
    let cmd = RainbowCmd::default();
    assert_eq!(cmd.shift_col_milli, 1600);
    assert_eq!(cmd.shift_row_milli, 3200);
    assert!(!cmd.shift_sign_no_random);
    assert!(cmd.hue_milli.is_none());
    assert_eq!(cmd.luminance_milli, 50_000);
    assert_eq!(cmd.chroma_milli, 128_000);
}

#[test]
fn resolve_with_rng_honors_options() {
    let cmd = RainbowCmd {
        shift_sign_no_random: true,
        hue_milli: Some(42_000),
        ..RainbowCmd::default()
    };
    let mut rng = SmallRng::seed_from_u64(7);
    let (color, cs, rs) = cmd.resolve_with_rng(&mut rng);
    assert_eq!(color.h_milli, 42_000);
    assert_eq!((cs, rs), (19088743, 38177487));
}

#[test]
fn resolve_with_rng_draws_hue_in_range() {
    for seed in 0..32u64 {
        let mut rng = SmallRng::seed_from_u64(seed);
        let (color, cs, rs) = RainbowCmd::default().resolve_with_rng(&mut rng);
        assert!(color.h_milli < 360_000);
        assert!(cs == 19088743 || cs == -19088743);
        assert!(rs == 38177487 || rs == -38177487);
    }
}

#[test]
fn randomized_signs_take_both_values() {
    let mut seen_neg = false;
    let mut seen_pos = false;
    for seed in 0..64u64 {
        let mut rng = SmallRng::seed_from_u64(seed);
        let (_, cs, _) = RainbowCmd::default().resolve_with_rng(&mut rng);
        if cs < 0 {
            seen_neg = true;
        } else {
            seen_pos = true;
        }
    }
    assert!(seen_neg && seen_pos);
}

#[test]
fn out_of_gamut_color_is_clamped() {
    // Chroma 128 at lightness 50 lies outside the sRGB gamut around hue 0;
    // the boundary conversion clamps rather than fails.
    let (r, _, _) = to_rgb(&base_50_128_0().to_fixed());
    assert_eq!(r, 255);
}
