//! Behaviour of the noise generators and the primitive layer.

use libnoise::module::{Billow, Checkerboard, Cylinders, Module, Perlin, RidgedMulti, Spheres,
    Turbulence, Voronoi};
use libnoise::noisegen::{
    gradient_coherent_noise3d, make_i32_range, value_noise3d, NoiseQuality,
};

fn b(x: f64) -> u64 {
    x.to_bits()
}

fn f(x: u64) -> f64 {
    f64::from_bits(x)
}

#[test]
fn checkerboard_is_exactly_plus_minus_one() {
    let c = Checkerboard;
    let mut seen_pos = false;
    let mut seen_neg = false;
    for i in 0..20 {
        for j in 0..20 {
            let x = -5.0 + (i as f64) * 0.5 + 0.25;
            let y = -5.0 + (j as f64) * 0.5 + 0.25;
            let v = f(c.get_value(b(x), b(y), b(0.25)));
            assert!(v == 1.0 || v == -1.0, "checkerboard value {}", v);
            if v == 1.0 {
                seen_pos = true;
            } else {
                seen_neg = true;
            }
        }
    }
    assert!(seen_pos && seen_neg);
}

#[test]
fn checkerboard_alternates_between_cells() {
    let c = Checkerboard;
    let a = f(c.get_value(b(0.5), b(0.5), b(0.5)));
    let d = f(c.get_value(b(1.5), b(0.5), b(0.5)));
    assert_eq!(a, -d);
}

#[test]
fn cylinders_and_spheres_stay_in_range() {
    let cy = Cylinders::new();
    let sp = Spheres::new();
    for i in 0..50 {
        let t = -6.0 + (i as f64) * 0.37;
        let vc = f(cy.get_value(b(t), b(0.0), b(t * 0.7)));
        let vs = f(sp.get_value(b(t), b(t * 0.3), b(t * 0.7)));
        assert!((-3.0..=1.0).contains(&vc), "cylinders out of range: {}", vc);
        assert!((-3.0..=1.0).contains(&vs), "spheres out of range: {}", vs);
    }
    // on the unit cylinder surface the output is exactly one
    assert_eq!(f(cy.get_value(b(1.0), b(0.0), b(0.0))), 1.0);
    assert_eq!(f(sp.get_value(b(2.0), b(0.0), b(0.0))), 1.0);
}

#[test]
fn value_noise_is_deterministic_and_bounded() {
    for s in [0, 1, -7, 12345] {
        for c in [-3, 0, 5, 1000] {
            let a = value_noise3d(c, c + 1, c + 2, s);
            let bv = value_noise3d(c, c + 1, c + 2, s);
            assert_eq!(a, bv);
            let v = f(a);
            assert!((-1.0..=1.0).contains(&v), "value noise {}", v);
        }
    }
    // different seeds give a different field somewhere
    assert!(value_noise3d(3, 4, 5, 0) != value_noise3d(3, 4, 5, 1));
}

#[test]
fn gradient_noise_vanishes_on_the_lattice() {
    for q in [NoiseQuality::Fast, NoiseQuality::Standard, NoiseQuality::Best] {
        let v = f(gradient_coherent_noise3d(b(0.0), b(0.0), b(0.0), 0, q));
        assert_eq!(v, 0.0);
        let w = f(gradient_coherent_noise3d(b(3.0), b(-2.0), b(7.0), 9, q));
        assert_eq!(w, 0.0);
    }
}

#[test]
fn perlin_single_octave_at_origin_is_zero() {
    let mut p = Perlin::new();
    p.set_octave_count(1);
    p.set_seed(0);
    assert_eq!(f(p.get_value(b(0.0), b(0.0), b(0.0))), 0.0);
}

#[test]
fn perlin_is_deterministic_and_seed_sensitive() {
    let mut p = Perlin::new();
    p.set_seed(42);
    let a = p.get_value(b(1.3), b(-0.7), b(2.9));
    let c = p.get_value(b(1.3), b(-0.7), b(2.9));
    assert_eq!(a, c);
    let mut p2 = Perlin::new();
    p2.set_seed(43);
    assert!(p2.get_value(b(1.3), b(-0.7), b(2.9)) != a);
}

#[test]
fn perlin_default_parameters() {
    let p = Perlin::new();
    assert_eq!(f(p.frequency()), 1.0);
    assert_eq!(f(p.lacunarity()), 2.0);
    assert_eq!(p.octave_count(), 6);
    assert_eq!(f(p.persistence()), 0.5);
    assert_eq!(p.seed(), 0);
    assert_eq!(p.quality(), NoiseQuality::Standard);
}

#[test]
fn billow_differs_from_perlin_by_fold_and_bias() {
    let mut p = Perlin::new();
    p.set_octave_count(1);
    let mut bl = Billow::new();
    bl.set_octave_count(1);
    // with one octave: billow = 2*|perlin_signal| - 1 + 0.5
    let x = 1.37;
    let y = -0.21;
    let z = 0.93;
    let ps = f(p.get_value(b(x), b(y), b(z)));
    let bs = f(bl.get_value(b(x), b(y), b(z)));
    assert_eq!(bs, 2.0 * ps.abs() - 1.0 + 0.5);
}

#[test]
fn ridged_multi_is_deterministic() {
    let r = RidgedMulti::new();
    let a = r.get_value(b(0.4), b(0.5), b(0.6));
    let c = r.get_value(b(0.4), b(0.5), b(0.6));
    assert_eq!(a, c);
    let v = f(a);
    assert!(v.is_finite());
}

#[test]
fn ridged_multi_lacunarity_rebuilds_weights() {
    let mut r = RidgedMulti::new();
    let before = r.get_value(b(0.9), b(0.1), b(0.2));
    r.set_lacunarity(b(3.0));
    let after = r.get_value(b(0.9), b(0.1), b(0.2));
    assert!(before != after);
}

#[test]
fn voronoi_without_distance_is_pure_displacement() {
    let v = Voronoi::new();
    let val = f(v.get_value(b(0.3), b(0.4), b(0.5)));
    // displacement 1.0 times a value-noise sample: within (-1, 1]
    assert!((-1.0..=1.0).contains(&val), "voronoi value {}", val);
    let again = f(v.get_value(b(0.3), b(0.4), b(0.5)));
    assert_eq!(val, again);
}

#[test]
fn voronoi_distance_term_changes_output() {
    let mut v = Voronoi::new();
    let plain = v.get_value(b(0.3), b(0.4), b(0.5));
    v.enable_distance(true);
    let with_dist = v.get_value(b(0.3), b(0.4), b(0.5));
    assert!(plain != with_dist);
    assert!(v.is_distance_enabled());
}

#[test]
fn voronoi_constant_within_one_cell() {
    // without the distance term, two nearby points in the same cell get
    // the same value
    let v = Voronoi::new();
    let a = v.get_value(b(0.30), b(0.40), b(0.50));
    let c = v.get_value(b(0.31), b(0.41), b(0.51));
    assert_eq!(a, c);
}

#[test]
fn turbulence_is_deterministic() {
    let t = Turbulence::new(Checkerboard);
    let a = t.get_value(b(0.2), b(0.4), b(0.6));
    let c = t.get_value(b(0.2), b(0.4), b(0.6));
    assert_eq!(a, c);
    assert_eq!(t.roughness(), 3);
    assert_eq!(t.seed(), 0);
    assert_eq!(f(t.power()), 1.0);
    assert_eq!(f(t.frequency()), 1.0);
}

#[test]
fn fold_keeps_values_in_lattice_range() {
    for &x in [0.0, 1.5, -2.75, 1e9, -1e9, 1.07374182e9, 5e12, -8.1e15].iter() {
        let folded = f(make_i32_range(b(x)));
        assert!(folded.abs() <= 1073741824.0, "fold of {:e} gave {:e}", x, folded);
    }
}

#[test]
fn fold_is_identity_inside_range() {
    for &x in [0.0, -0.0, 1.0, -123456.789, 1073741823.9, -1073741823.9].iter() {
        assert_eq!(make_i32_range(b(x)), b(x));
    }
}

#[test]
fn fold_is_idempotent_on_folded_values() {
    for &x in [0.0, 1.5, 2.5e9, -3.1e10, 7.7e300, -4.2e200, 1.07374182e9].iter() {
        let once = make_i32_range(b(x));
        let twice = make_i32_range(once);
        if f(once).abs() < 1073741824.0 {
            assert_eq!(once, twice, "fold of {:e} not idempotent", x);
        }
    }
}

#[test]
fn fold_swaps_the_exact_boundaries() {
    // the two boundary values exchange places, so folding is not
    // idempotent exactly there
    let hi = 1073741824.0f64;
    assert_eq!(f(make_i32_range(b(hi))), -hi);
    assert_eq!(f(make_i32_range(b(-hi))), hi);
}

#[test]
fn turbulence_with_zero_power_is_identity() {
    let mut t = Turbulence::new(Checkerboard);
    t.set_power(b(0.0));
    for &(x, y, z) in [(0.25f64, 0.5f64, 0.75f64), (-1.3, 2.2, 0.4)].iter() {
        let direct = f(Checkerboard.get_value(b(x), b(y), b(z)));
        let turb = f(t.get_value(b(x), b(y), b(z)));
        assert_eq!(direct, turb);
    }
}
