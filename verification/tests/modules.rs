//! End-to-end behaviour of the composition modules, evaluated through
//! the public trait on concrete coordinates.

use libnoise::module::{
    Abs, Add, Blend, Checkerboard, Clamp, Constant, Displace, Exponent, Invert, Max, Min, Module,
    Multiply, Power, RotatePoint, ScaleBias, ScalePoint, Select, TranslatePoint,
};

fn b(x: f64) -> u64 {
    x.to_bits()
}

fn f(x: u64) -> f64 {
    f64::from_bits(x)
}

#[test]
fn constant_returns_value_everywhere() {
    let mut c = Constant::new();
    assert_eq!(f(c.get_value(b(0.0), b(0.0), b(0.0))), 0.0);
    c.set_const_value(b(0.25));
    assert_eq!(f(c.get_value(b(1.5), b(-2.5), b(1e300))), 0.25);
    assert_eq!(f(c.get_value(b(-0.0), b(123.0), b(f64::INFINITY))), 0.25);
    assert_eq!(c.const_value(), b(0.25));
}

#[test]
fn evaluation_is_repeatable() {
    let c = cv(0.75);
    let first = c.get_value(b(0.1), b(0.2), b(0.3));
    let second = c.get_value(b(0.1), b(0.2), b(0.3));
    assert_eq!(first, second);
}

fn cv(v: f64) -> Constant {
    let mut c = Constant::new();
    c.set_const_value(v.to_bits());
    c
}


#[test]
fn abs_negates_negative_values() {
    let a = Abs::new(cv(-0.75));
    assert_eq!(f(a.get_value(b(0.0), b(0.0), b(0.0))), 0.75);
}

#[test]
fn invert_flips_sign() {
    let i = Invert::new(cv(0.75));
    assert_eq!(f(i.get_value(b(0.0), b(0.0), b(0.0))), -0.75);
}

#[test]
fn invert_twice_restores_value() {
    let i = Invert::new(Invert::new(cv(-1.25)));
    assert_eq!(f(i.get_value(b(2.0), b(3.0), b(4.0))), -1.25);
}

#[test]
fn add_sums_sources() {
    let a = Add::new(
        cv(0.75),
        cv(-0.25),
    );
    assert_eq!(f(a.get_value(b(0.0), b(0.0), b(0.0))), 0.5);
}

#[test]
fn multiply_multiplies_sources() {
    let m = Multiply::new(
        cv(0.5),
        cv(-3.0),
    );
    assert_eq!(f(m.get_value(b(0.0), b(0.0), b(0.0))), -1.5);
}

#[test]
fn min_max_pick_sources() {
    let lo = cv(-1.0);
    let hi = cv(2.0);
    let mn = Min::new(lo.clone(), hi.clone());
    let mx = Max::new(lo, hi);
    assert_eq!(f(mn.get_value(b(0.0), b(0.0), b(0.0))), -1.0);
    assert_eq!(f(mx.get_value(b(0.0), b(0.0), b(0.0))), 2.0);
}

#[test]
fn power_raises_first_to_second() {
    let p = Power::new(
        cv(2.0),
        cv(3.0),
    );
    let r = f(p.get_value(b(0.0), b(0.0), b(0.0)));
    assert!((r - 8.0).abs() < 1e-9, "2^3 = {}", r);
}

#[test]
fn clamp_holds_bounds() {
    let mut c = Clamp::new(cv(2.0));
    c.set_bounds(b(-0.5), b(0.5));
    assert_eq!(f(c.get_value(b(0.0), b(0.0), b(0.0))), 0.5);
    let mut c2 = Clamp::new(cv(-2.0));
    c2.set_bounds(b(-0.5), b(0.5));
    assert_eq!(f(c2.get_value(b(0.0), b(0.0), b(0.0))), -0.5);
    let c3 = Clamp::new(cv(0.25));
    assert_eq!(f(c3.get_value(b(0.0), b(0.0), b(0.0))), 0.25);
}

#[test]
fn scale_bias_applies_scale_then_bias() {
    let mut s = ScaleBias::new(cv(0.5));
    s.set_scale(b(3.0));
    s.set_bias(b(0.25));
    assert_eq!(f(s.get_value(b(0.0), b(0.0), b(0.0))), 0.5 * 3.0 + 0.25);
}

#[test]
fn exponent_default_is_near_identity() {
    let e = Exponent::new(cv(0.5));
    let r = f(e.get_value(b(0.0), b(0.0), b(0.0)));
    assert!((r - 0.5).abs() < 1e-9, "exponent 1 keeps value: {}", r);
}

#[test]
fn blend_weights_by_control() {
    // control +1 selects the second source entirely
    let bl = Blend::new(
        cv(-4.0),
        cv(6.0),
        cv(1.0),
    );
    assert_eq!(f(bl.get_value(b(0.0), b(0.0), b(0.0))), 6.0);
    // control 0 gives the midpoint
    let bl2 = Blend::new(
        cv(0.0),
        cv(1.0),
        cv(0.0),
    );
    assert_eq!(f(bl2.get_value(b(0.0), b(0.0), b(0.0))), 0.5);
}

#[test]
fn select_hard_cut_picks_by_range() {
    // inside the range: second module
    let s = Select::new(
        cv(-1.0),
        cv(1.0),
        cv(0.0),
    );
    assert_eq!(f(s.get_value(b(0.0), b(0.0), b(0.0))), 1.0);
    // outside the range: first module
    let s2 = Select::new(
        cv(-1.0),
        cv(1.0),
        cv(2.0),
    );
    assert_eq!(f(s2.get_value(b(0.0), b(0.0), b(0.0))), -1.0);
}

#[test]
fn select_falloff_edges() {
    // bounds (-1, 1), falloff 0.5: at control = lower - falloff the
    // output is the first module's value
    let mut s = Select::new(
        cv(-7.0),
        cv(7.0),
        cv(-1.5),
    );
    s.set_edge_falloff(b(0.5));
    assert_eq!(f(s.get_value(b(0.0), b(0.0), b(0.0))), -7.0);
    // at control = lower bound the blend weight is exactly one half
    let mut s2 = Select::new(
        cv(0.0),
        cv(1.0),
        cv(-1.0),
    );
    s2.set_edge_falloff(b(0.5));
    assert_eq!(f(s2.get_value(b(0.0), b(0.0), b(0.0))), 0.5);
}

#[test]
fn translate_point_shifts_coordinates() {
    // a checkerboard shifted by one unit flips its colour
    let plain = Checkerboard;
    let mut shifted = TranslatePoint::new(Checkerboard);
    shifted.set_xyz_trans(b(1.0), b(0.0), b(0.0));
    let p = f(plain.get_value(b(0.25), b(0.25), b(0.25)));
    let q = f(shifted.get_value(b(0.25), b(0.25), b(0.25)));
    assert_eq!(p, -q);
}

#[test]
fn scale_point_scales_coordinates() {
    let mut sp = ScalePoint::new(Checkerboard);
    sp.set_scale(b(2.0));
    // (0.75, 0.25, 0.25) scaled by 2 lands in the cell of (1.5, 0.5, 0.5)
    let direct = f(Checkerboard.get_value(b(1.5), b(0.5), b(0.5)));
    let scaled = f(sp.get_value(b(0.75), b(0.25), b(0.25)));
    assert_eq!(direct, scaled);
}

#[test]
fn rotate_point_zero_angles_is_identity() {
    let r = RotatePoint::new(Checkerboard);
    for &(x, y, z) in [(0.25f64, 0.5f64, 0.75f64), (-1.5, 2.5, 0.1)].iter() {
        let direct = f(Checkerboard.get_value(b(x), b(y), b(z)));
        let rotated = f(r.get_value(b(x), b(y), b(z)));
        assert_eq!(direct, rotated);
    }
}

#[test]
fn displace_moves_sampling_point() {
    let d = Displace::new(
        Checkerboard,
        cv(1.0),
        cv(0.0),
        cv(0.0),
    );
    let direct = f(Checkerboard.get_value(b(1.25), b(0.25), b(0.25)));
    let displaced = f(d.get_value(b(0.25), b(0.25), b(0.25)));
    assert_eq!(direct, displaced);
}
