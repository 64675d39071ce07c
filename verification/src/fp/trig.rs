//! Sine and cosine of an angle given in degrees, for the rotation node.
//!
//! The angle is reduced exactly modulo 360 degrees, folded into the first
//! quadrant in degrees, converted to radians and evaluated with
//! fixed-length Taylor series, so the result depends on the argument bits
//! alone.

use vstd::prelude::*;
use crate::fp::repr::{
    fp_abs_s, fp_lt_s, fp_neg_s, is_nan_s, sign_of, fp_abs, fp_lt, fp_neg, is_finite, QNAN,
};
use crate::fp::arith::{fp_add_s, fp_div_s, fp_mul_s, fp_sub_s, fp_add, fp_div, fp_mul, fp_sub};
use crate::fp::intpart::{fp_from_i32_s, fp_mod_s, fp_from_i32, fp_mod, ONE};
use crate::fp::poly::{D90, D180, D270, D360, RAD_PER_DEG};

verus! {

/// Iterated Taylor sum for sine: after `n` steps, `.0` is the current
/// term and `.1` the partial sum.
pub open spec fn sin_iter(x: u64, n: nat) -> (u64, u64)
    decreases n,
{
    if n == 0 {
        (x, x)
    } else {
        let prev = sin_iter(x, (n - 1) as nat);
        let t = fp_div_s(
            fp_mul_s(prev.0, fp_neg_s(fp_mul_s(x, x))),
            fp_from_i32_s(((2 * n) * (2 * n + 1)) as i32),
        );
        (t, fp_add_s(prev.1, t))
    }
}

/// Iterated Taylor sum for cosine.
pub open spec fn cos_iter(x: u64, n: nat) -> (u64, u64)
    decreases n,
{
    if n == 0 {
        (ONE, ONE)
    } else {
        let prev = cos_iter(x, (n - 1) as nat);
        let t = fp_div_s(
            fp_mul_s(prev.0, fp_neg_s(fp_mul_s(x, x))),
            fp_from_i32_s(((2 * n - 1) * (2 * n)) as i32),
        );
        (t, fp_add_s(prev.1, t))
    }
}

pub open spec fn sin_poly_s(x: u64) -> u64 {
    sin_iter(x, 10).1
}

pub open spec fn cos_poly_s(x: u64) -> u64 {
    cos_iter(x, 10).1
}

fn sin_poly(x: u64) -> (r: u64)
    ensures
        r == sin_poly_s(x),
{
    let mut term: u64 = x;
    let mut acc: u64 = x;
    let mut i: i32 = 1;
    while i <= 10
        invariant
            1 <= i <= 11,
            (term, acc) == sin_iter(x, (i - 1) as nat),
        decreases 11 - i,
    {
        proof {
            assert(0 <= (2 * i) * (2 * i + 1) <= 462) by (nonlinear_arith)
                requires
                    1 <= i <= 10,
            {
            }
        }
        term = fp_div(fp_mul(term, fp_neg(fp_mul(x, x))), fp_from_i32((2 * i) * (2 * i + 1)));
        acc = fp_add(acc, term);
        i = i + 1;
    }
    acc
}

fn cos_poly(x: u64) -> (r: u64)
    ensures
        r == cos_poly_s(x),
{
    let mut term: u64 = ONE;
    let mut acc: u64 = ONE;
    let mut i: i32 = 1;
    while i <= 10
        invariant
            1 <= i <= 11,
            (term, acc) == cos_iter(x, (i - 1) as nat),
        decreases 11 - i,
    {
        proof {
            assert(0 <= (2 * i - 1) * (2 * i) <= 462) by (nonlinear_arith)
                requires
                    1 <= i <= 10,
            {
            }
        }
        term = fp_div(fp_mul(term, fp_neg(fp_mul(x, x))), fp_from_i32((2 * i - 1) * (2 * i)));
        acc = fp_add(acc, term);
        i = i + 1;
    }
    acc
}

/// Sine of a first-quadrant angle in degrees.
pub open spec fn sin_q_s(d: u64) -> u64 {
    sin_poly_s(fp_mul_s(d, RAD_PER_DEG))
}

/// Cosine of a first-quadrant angle in degrees.
pub open spec fn cos_q_s(d: u64) -> u64 {
    cos_poly_s(fp_mul_s(d, RAD_PER_DEG))
}

/// Sine and cosine of an angle in degrees; NaN for NaN or infinite input.
pub open spec fn sin_cos_deg_s(a: u64) -> (u64, u64) {
    if !crate::fp::repr::is_finite_s(a) || is_nan_s(a) {
        (QNAN, QNAN)
    } else {
        let r = fp_mod_s(a, D360);
        let d = fp_abs_s(r);
        let sc = if fp_lt_s(d, D90) {
            (sin_q_s(d), cos_q_s(d))
        } else if fp_lt_s(d, D180) {
            (sin_q_s(fp_sub_s(D180, d)), fp_neg_s(cos_q_s(fp_sub_s(D180, d))))
        } else if fp_lt_s(d, D270) {
            (fp_neg_s(sin_q_s(fp_sub_s(d, D180))), fp_neg_s(cos_q_s(fp_sub_s(d, D180))))
        } else {
            (fp_neg_s(sin_q_s(fp_sub_s(D360, d))), cos_q_s(fp_sub_s(D360, d)))
        };
        if sign_of(r) {
            (fp_neg_s(sc.0), sc.1)
        } else {
            sc
        }
    }
}

pub fn sin_cos_deg(a: u64) -> (r: (u64, u64))
    ensures
        r == sin_cos_deg_s(a),
{
    if !is_finite(a) {
        return (QNAN, QNAN);
    }
    let rr: u64 = fp_mod(a, D360);
    let d: u64 = fp_abs(rr);
    let (sv, cv): (u64, u64) = if fp_lt(d, D90) {
        (sin_q(d), cos_q(d))
    } else if fp_lt(d, D180) {
        let f: u64 = fp_sub(D180, d);
        (sin_q(f), fp_neg(cos_q(f)))
    } else if fp_lt(d, D270) {
        let f: u64 = fp_sub(d, D180);
        (fp_neg(sin_q(f)), fp_neg(cos_q(f)))
    } else {
        let f: u64 = fp_sub(D360, d);
        (fp_neg(sin_q(f)), cos_q(f))
    };
    if rr >= crate::fp::repr::SIGN_MASK {
        (fp_neg(sv), cv)
    } else {
        (sv, cv)
    }
}

fn sin_q(d: u64) -> (r: u64)
    ensures
        r == sin_q_s(d),
{
    sin_poly(fp_mul(d, RAD_PER_DEG))
}

fn cos_q(d: u64) -> (r: u64)
    ensures
        r == cos_q_s(d),
{
    cos_poly(fp_mul(d, RAD_PER_DEG))
}

} // verus!
