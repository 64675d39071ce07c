//! Behaviour of the spline-remapping modules: curves and terraces.

use libnoise::module::{Constant, Curve, Module, Terrace};

fn b(x: f64) -> u64 {
    x.to_bits()
}

fn f(x: u64) -> f64 {
    f64::from_bits(x)
}

fn cv(v: f64) -> Constant {
    let mut c = Constant::new();
    c.set_const_value(v.to_bits());
    c
}

fn four_point_curve(source: f64) -> Curve<Constant> {
    let mut c = Curve::new(cv(source));
    c.add_control_point(b(-1.0), b(-2.0));
    c.add_control_point(b(0.0), b(0.5));
    c.add_control_point(b(1.0), b(1.0));
    c.add_control_point(b(2.0), b(4.0));
    c
}

#[test]
fn curve_keeps_points_sorted_regardless_of_insertion_order() {
    let mut c = Curve::new(cv(0.0));
    c.add_control_point(b(1.0), b(10.0));
    c.add_control_point(b(-1.0), b(-10.0));
    c.add_control_point(b(0.0), b(0.0));
    c.add_control_point(b(2.0), b(20.0));
    let pts = c.control_points();
    assert_eq!(pts.len(), 4);
    for w in pts.windows(2) {
        assert!(f(w[0].input_value) < f(w[1].input_value));
    }
}

#[test]
fn curve_below_range_returns_first_output() {
    let c = four_point_curve(-5.0);
    assert_eq!(f(c.get_value(b(0.0), b(0.0), b(0.0))), -2.0);
}

#[test]
fn curve_above_range_returns_last_output() {
    let c = four_point_curve(5.0);
    assert_eq!(f(c.get_value(b(0.0), b(0.0), b(0.0))), 4.0);
}

#[test]
fn curve_hits_control_points() {
    // sampling exactly at an inner control input returns its output:
    // the interpolation alpha is exactly zero there
    let c = four_point_curve(0.0);
    assert_eq!(f(c.get_value(b(0.0), b(0.0), b(0.0))), 0.5);
    let c2 = four_point_curve(1.0);
    assert_eq!(f(c2.get_value(b(0.0), b(0.0), b(0.0))), 1.0);
}

#[test]
fn curve_interpolates_between_points() {
    // between 0 and 1 the spline through (-1,-2) (0,0.5) (1,1) (2,4)
    // at alpha one half: p, q, r, s from the cubic form
    let c = four_point_curve(0.5);
    let n0 = -2.0f64;
    let n1 = 0.5f64;
    let n2 = 1.0f64;
    let n3 = 4.0f64;
    let p = (n3 - n2) - (n0 - n1);
    let q = (n0 - n1) - p;
    let r = n2 - n0;
    let s = n1;
    let a = 0.5f64;
    let want = p * a * a * a + q * a * a + r * a + s;
    assert_eq!(f(c.get_value(b(0.0), b(0.0), b(0.0))), want);
}

#[test]
fn curve_clear_control_points_empties_curve() {
    let mut c = four_point_curve(0.0);
    c.clear_control_points();
    assert_eq!(c.control_points().len(), 0);
}

fn two_point_terrace(source: f64) -> Terrace<Constant> {
    let mut t = Terrace::new(cv(source));
    t.add_control_point(b(0.0));
    t.add_control_point(b(1.0));
    t
}

#[test]
fn terrace_below_range_returns_first_point() {
    let t = two_point_terrace(-3.0);
    assert_eq!(f(t.get_value(b(0.0), b(0.0), b(0.0))), 0.0);
}

#[test]
fn terrace_above_range_returns_last_point() {
    let t = two_point_terrace(3.0);
    assert_eq!(f(t.get_value(b(0.0), b(0.0), b(0.0))), 1.0);
}

#[test]
fn terrace_squares_the_alpha() {
    // between 0 and 1 at source 0.5: alpha = 0.5^2 = 0.25, interpolating
    // from 0 to 1 gives 0.25
    let t = two_point_terrace(0.5);
    assert_eq!(f(t.get_value(b(0.0), b(0.0), b(0.0))), 0.25);
}

#[test]
fn terrace_inversion_flips_profile() {
    // inverted: values 0 and 1 swap and alpha becomes (1-0.5)^2 = 0.25,
    // interpolating from 1 to 0 gives 0.75
    let mut t = two_point_terrace(0.5);
    t.set_invert_terraces(true);
    assert!(t.invert_terraces());
    assert_eq!(f(t.get_value(b(0.0), b(0.0), b(0.0))), 0.75);
}

#[test]
fn terrace_make_control_points_spans_unit_range() {
    let mut t = Terrace::new(cv(0.0));
    t.make_control_points(5);
    let pts = t.control_points();
    assert_eq!(pts.len(), 5);
    assert_eq!(f(pts[0]), -1.0);
    assert_eq!(f(pts[1]), -0.5);
    assert_eq!(f(pts[2]), 0.0);
    assert_eq!(f(pts[3]), 0.5);
    assert_eq!(f(pts[4]), 1.0);
}

#[test]
fn terrace_keeps_points_sorted() {
    let mut t = Terrace::new(cv(0.0));
    t.add_control_point(b(2.0));
    t.add_control_point(b(-1.0));
    t.add_control_point(b(0.5));
    let pts = t.control_points();
    assert_eq!(pts.len(), 3);
    assert!(f(pts[0]) < f(pts[1]) && f(pts[1]) < f(pts[2]));
}
