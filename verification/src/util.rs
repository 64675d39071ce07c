//! Interpolation kernels shared by the noise modules.

use vstd::prelude::*;
use crate::fp::arith::{fp_add_s, fp_mul_s, fp_sub_s, fp_add, fp_mul, fp_sub};
use crate::fp::intpart::ONE;
use crate::fp::poly::TWO;

verus! {

/// The scalar three.
pub const THREE: u64 = 0x4008000000000000;

/// The scalar six.
pub const SIX: u64 = 0x4018000000000000;

/// The scalar ten.
pub const TEN: u64 = 0x4024000000000000;

/// The scalar fifteen.
pub const FIFTEEN: u64 = 0x402E000000000000;

/// Linear interpolation `((1 - a) * n0) + (a * n1)`.
pub open spec fn linear_interp_s(n0: u64, n1: u64, a: u64) -> u64 {
    fp_add_s(fp_mul_s(fp_sub_s(ONE, a), n0), fp_mul_s(a, n1))
}

/// Performs linear interpolation between two values.
///
/// The alpha value should range from 0.0 to 1.0: at 0.0 this returns
/// `n0` and at 1.0 it returns `n1`.
pub fn linear_interp(n0: u64, n1: u64, a: u64) -> (r: u64)
    ensures
        r == linear_interp_s(n0, n1, a),
{
    fp_add(fp_mul(fp_sub(ONE, a), n0), fp_mul(a, n1))
}

/// Cubic interpolation through four values: with
/// `p = (n3 - n2) - (n0 - n1)`, `q = (n0 - n1) - p`, `r = n2 - n0` and
/// `s = n1`, the result is `p*a^3 + q*a^2 + r*a + s`.
pub open spec fn cubic_interp_s(n0: u64, n1: u64, n2: u64, n3: u64, a: u64) -> u64 {
    let p = fp_sub_s(fp_sub_s(n3, n2), fp_sub_s(n0, n1));
    let q = fp_sub_s(fp_sub_s(n0, n1), p);
    let r = fp_sub_s(n2, n0);
    let s = n1;
    fp_add_s(
        fp_add_s(
            fp_add_s(fp_mul_s(fp_mul_s(fp_mul_s(p, a), a), a), fp_mul_s(fp_mul_s(q, a), a)),
            fp_mul_s(r, a),
        ),
        s,
    )
}

/// Performs cubic interpolation between two values bound between two
/// other values. At alpha 0.0 this returns `n1`; at 1.0 it returns `n2`.
pub fn cubic_interp(n0: u64, n1: u64, n2: u64, n3: u64, a: u64) -> (r: u64)
    ensures
        r == cubic_interp_s(n0, n1, n2, n3, a),
{
    let p: u64 = fp_sub(fp_sub(n3, n2), fp_sub(n0, n1));
    let q: u64 = fp_sub(fp_sub(n0, n1), p);
    let r: u64 = fp_sub(n2, n0);
    let s: u64 = n1;
    fp_add(fp_add(fp_add(fp_mul(fp_mul(fp_mul(p, a), a), a), fp_mul(fp_mul(q, a), a)), fp_mul(r, a)), s)
}

/// Cubic S-curve `a * a * (3 - 2 * a)`.
pub open spec fn scurve3_s(a: u64) -> u64 {
    fp_mul_s(fp_mul_s(a, a), fp_sub_s(THREE, fp_mul_s(TWO, a)))
}

/// Maps a value onto a cubic S-curve; the input should range from 0.0
/// to 1.0. The derivative of the curve is zero at both ends.
pub fn scurve3(a: u64) -> (r: u64)
    ensures
        r == scurve3_s(a),
{
    fp_mul(fp_mul(a, a), fp_sub(THREE, fp_mul(TWO, a)))
}

/// Quintic S-curve `6*a^5 - 15*a^4 + 10*a^3`.
pub open spec fn scurve5_s(a: u64) -> u64 {
    let a3 = fp_mul_s(fp_mul_s(a, a), a);
    let a4 = fp_mul_s(a3, a);
    let a5 = fp_mul_s(a4, a);
    fp_add_s(fp_sub_s(fp_mul_s(SIX, a5), fp_mul_s(FIFTEEN, a4)), fp_mul_s(TEN, a3))
}

/// Maps a value onto a quintic S-curve; the input should range from
/// 0.0 to 1.0. The first and second derivatives are zero at both ends.
pub fn scurve5(a: u64) -> (r: u64)
    ensures
        r == scurve5_s(a),
{
    let a3: u64 = fp_mul(fp_mul(a, a), a);
    let a4: u64 = fp_mul(a3, a);
    let a5: u64 = fp_mul(a4, a);
    fp_add(fp_sub(fp_mul(SIX, a5), fp_mul(FIFTEEN, a4)), fp_mul(TEN, a3))
}

/// Clamps an index to the inclusive range between the two bounds.
pub fn clamp(value: i64, lower_bound: i64, upper_bound: i64) -> (r: i64)
    ensures
        r == if value < lower_bound {
            lower_bound
        } else if value > upper_bound {
            upper_bound
        } else {
            value
        },
{
    if value < lower_bound {
        lower_bound
    } else if value > upper_bound {
        upper_bound
    } else {
        value
    }
}

} // verus!
