//! Power and trigonometric functions, composed from the rounded core
//! operations with fixed-length series, so every result is a deterministic
//! function of the argument bits.

use vstd::prelude::*;
use crate::fp::repr::{
    fp_abs_s, fp_eq_s, fp_lt_s, fp_neg_s, is_inf_s, is_nan_s, is_zero_s, sign_of, zero_bits,
    inf_bits, fp_abs, fp_eq, fp_lt, fp_neg, is_nan, is_finite, EXP_UNIT, SIGN_MASK, NEG_INF,
    POS_INF, NEG_ZERO, POS_ZERO, QNAN,
};
use crate::fp::arith::{fp_add_s, fp_div_s, fp_mul_s, fp_sub_s, fp_add, fp_div, fp_mul, fp_sub};
use crate::fp::intpart::{
    fp_floor_s, fp_from_i32_s, fp_mod_s, fp_to_i32_s, fp_trunc_int, fp_floor, fp_from_i32, fp_mod,
    fp_to_i32, ONE,
};

verus! {

/// The scalar two.
pub const TWO: u64 = 0x4000000000000000;

/// The scalar one half.
pub const HALF: u64 = 0x3FE0000000000000;

/// The scalar three halves.
pub const THREE_HALVES: u64 = 0x3FF8000000000000;

/// The natural logarithm of two.
pub const LN2: u64 = 0x3FE62E42FEFA39EF;

/// The binary logarithm of Euler's number.
pub const LOG2E: u64 = 0x3FF71547652B82FE;

/// Radians per degree.
pub const RAD_PER_DEG: u64 = 0x3F91DF46A2529D39;

/// The scalars 90, 180, 270 and 360.
pub const D90: u64 = 0x4056800000000000;

pub const D180: u64 = 0x4066800000000000;

pub const D270: u64 = 0x4070E00000000000;

pub const D360: u64 = 0x4076800000000000;

/// Binary exponents beyond these bounds overflow or underflow every
/// binary64 value.
pub const EXP_HI: u64 = 0x4090040000000000;  // 1025.0

pub const EXP_LO: u64 = 0xC091300000000000;  // -1100.0

/// The scalar `2^53`, above which every binary64 value is an even integer.
pub const TWO_POW_53: u64 = 0x4340000000000000;

/// Iterated Taylor sum for `exp`: after `n` steps, `.0` is the current
/// term `x^n / n!` and `.1` the partial sum through that term.
pub open spec fn exp_iter(x: u64, n: nat) -> (u64, u64)
    decreases n,
{
    if n == 0 {
        (ONE, ONE)
    } else {
        let prev = exp_iter(x, (n - 1) as nat);
        let t = fp_div_s(fp_mul_s(prev.0, x), fp_from_i32_s(n as i32));
        (t, fp_add_s(prev.1, t))
    }
}

/// Degree-17 Taylor polynomial of `exp` around zero.
pub open spec fn exp_poly_s(x: u64) -> u64 {
    exp_iter(x, 17).1
}

fn exp_poly(x: u64) -> (r: u64)
    ensures
        r == exp_poly_s(x),
{
    let mut term: u64 = ONE;
    let mut acc: u64 = ONE;
    let mut i: i32 = 1;
    while i <= 17
        invariant
            1 <= i <= 18,
            (term, acc) == exp_iter(x, (i - 1) as nat),
        decreases 18 - i,
    {
        term = fp_div(fp_mul(term, x), fp_from_i32(i));
        acc = fp_add(acc, term);
        i = i + 1;
    }
    (term, acc).1
}

/// Iterated odd-power sum for `atanh`: after `n` steps, `.0` is the
/// current odd power `t^(2n+1)` and `.1` the partial sum of
/// `t^(2k+1) / (2k+1)` through it.
pub open spec fn atanh_iter(t: u64, n: nat) -> (u64, u64)
    decreases n,
{
    if n == 0 {
        (t, t)
    } else {
        let prev = atanh_iter(t, (n - 1) as nat);
        let p = fp_mul_s(prev.0, fp_mul_s(t, t));
        let a = fp_add_s(prev.1, fp_div_s(p, fp_from_i32_s((2 * n + 1) as i32)));
        (p, a)
    }
}

/// `2 * atanh((m - 1) / (m + 1))`: the natural logarithm of `m`,
/// accurate for `m` near one.
pub open spec fn ln_near_one_s(m: u64) -> u64 {
    let t = fp_div_s(fp_sub_s(m, ONE), fp_add_s(m, ONE));
    fp_mul_s(TWO, atanh_iter(t, 12).1)
}

fn ln_near_one(m: u64) -> (r: u64)
    ensures
        r == ln_near_one_s(m),
{
    let t: u64 = fp_div(fp_sub(m, ONE), fp_add(m, ONE));
    let mut p: u64 = t;
    let mut acc: u64 = t;
    let mut i: i32 = 1;
    while i <= 12
        invariant
            1 <= i <= 13,
            (p, acc) == atanh_iter(t, (i - 1) as nat),
        decreases 13 - i,
    {
        p = fp_mul(p, fp_mul(t, t));
        acc = fp_add(acc, fp_div(p, fp_from_i32(2 * i + 1)));
        i = i + 1;
    }
    fp_mul(TWO, acc)
}

/// The scalar `2^n`, exact for every representable binary exponent,
/// saturating to infinity and zero beyond.
pub open spec fn fp_pow2i_s(n: int) -> u64 {
    if n >= 1024 {
        POS_INF
    } else if n >= -1022 {
        (((n + 1023) * (EXP_UNIT as int)) as u64)
    } else if n >= -1074 {
        crate::fp::round::round_pack_s(false, n, 1)
    } else {
        POS_ZERO
    }
}

fn fp_pow2i(n: i32) -> (r: u64)
    ensures
        r == fp_pow2i_s(n as int),
{
    if n >= 1024 {
        POS_INF
    } else if n >= -1022 {
        ((n + 1023) as u64) * EXP_UNIT
    } else if n >= -1074 {
        crate::fp::round::round_pack(false, n, 1)
    } else {
        POS_ZERO
    }
}

/// Binary logarithm of a positive finite scalar: the integer exponent
/// plus a series evaluation on the significand, which is first reduced
/// into `[0.75, 1.5)`.
pub open spec fn fp_log2_s(a: u64) -> u64 {
    let nq = crate::fp::arith::norm53(crate::fp::arith::mant_of(a), crate::fp::arith::scale_of(a));
    let mm = crate::fp::round::round_pack_s(false, -52, nq.0);
    let e = nq.1 + 52;
    let red = if fp_lt_s(mm, THREE_HALVES) {
        (mm, e)
    } else {
        (fp_mul_s(mm, HALF), e + 1)
    };
    fp_add_s(fp_from_i32_s(red.1 as i32), fp_mul_s(ln_near_one_s(red.0), LOG2E))
}

fn fp_log2(a: u64) -> (r: u64)
    requires
        crate::fp::repr::is_finite_s(a),
        !is_zero_s(a),
        !sign_of(a),
    ensures
        r == fp_log2_s(a),
{
    let (s1, q1, m1) = crate::fp::intpart::unpack_pub(a);
    let (m, q) = crate::fp::arith::norm53_exec(m1, q1);
    let mm: u64 = crate::fp::round::round_pack(false, -52, m as u128);
    let e: i32 = q + 52;
    let (mr, er): (u64, i32) = if fp_lt(mm, THREE_HALVES) {
        (mm, e)
    } else {
        (fp_mul(mm, HALF), e + 1)
    };
    fp_add(fp_from_i32(er), fp_mul(ln_near_one(mr), LOG2E))
}

/// `2^z` for a finite scalar `z` within the representable exponent
/// range: split into integer part and fraction, with the fraction
/// exponentiated through the `exp` series.
pub open spec fn fp_exp2_s(z: u64) -> u64 {
    let fl = fp_floor_s(z);
    let n = fp_to_i32_s(fl);
    let f = fp_sub_s(z, fl);
    fp_mul_s(fp_pow2i_s(n as int), exp_poly_s(fp_mul_s(f, LN2)))
}

fn fp_exp2(z: u64) -> (r: u64)
    ensures
        r == fp_exp2_s(z),
{
    let fl: u64 = fp_floor(z);
    let n: i32 = fp_to_i32(fl);
    let f: u64 = fp_sub(z, fl);
    fp_mul(fp_pow2i(n), exp_poly(fp_mul(f, LN2)))
}

/// Whether a scalar is an odd integer.
pub open spec fn fp_odd_int_s(y: u64) -> bool {
    &&& fp_floor_s(y) == y
    &&& crate::fp::repr::is_finite_s(y)
    &&& (if fp_trunc_int(y) >= 0 {
        fp_trunc_int(y) % 2 == 1
    } else {
        (-fp_trunc_int(y)) % 2 == 1
    })
}

fn fp_odd_int(y: u64) -> (r: bool)
    requires
        crate::fp::repr::is_finite_s(y),
    ensures
        r == fp_odd_int_s(y),
{
    let fl: u64 = fp_floor(y);
    if fl != y {
        return false;
    }
    let mag: u64 = y % SIGN_MASK;
    let eb: u64 = mag / EXP_UNIT;
    if eb < 1023 {
        // an integral value below one in magnitude is zero, which is even
        proof {
            crate::fp::arith::lemma_mant_bounds(y);
        }
        return false;
    }
    if eb > 1075 {
        // scale is a positive power of two: always even
        proof {
            let sc = crate::fp::arith::scale_of(y);
            assert(sc >= 1);
            assert(fp_trunc_int(y) == if sign_of(y) {
                -((crate::fp::arith::mant_of(y) * vstd::arithmetic::power2::pow2(sc as nat)) as int)
            } else {
                (crate::fp::arith::mant_of(y) * vstd::arithmetic::power2::pow2(sc as nat)) as int
            });
            let v = crate::fp::arith::mant_of(y) * vstd::arithmetic::power2::pow2(sc as nat);
            assert(v % 2 == 0) by {
                vstd::arithmetic::power2::lemma_pow2_unfold(sc as nat);
                assert(v == (crate::fp::arith::mant_of(y) * pow2_minus_one_times_two(sc as nat)));
                vstd::arithmetic::div_mod::lemma_mod_multiples_basic(
                    (crate::fp::arith::mant_of(y) * vstd::arithmetic::power2::pow2(
                        (sc - 1) as nat,
                    )) as int,
                    2,
                );
                vstd::arithmetic::mul::lemma_mul_is_associative(
                    crate::fp::arith::mant_of(y) as int,
                    vstd::arithmetic::power2::pow2((sc - 1) as nat) as int,
                    2,
                );
            }
        }
        return false;
    }
    // 1023 <= eb <= 1075: the parity bit of the truncated value is the
    // significand bit at the fractional cut.
    let kk: u64 = 1075 - eb;
    proof {
        crate::fp::arith::lemma_mant_bounds(y);
        vstd::arithmetic::power2::lemma2_to64();
        vstd::arithmetic::power2::lemma2_to64_rest();
        vstd::arithmetic::power2::lemma_pow2_unfold(53);
        assert(kk <= 52);
        assert(vstd::arithmetic::power2::pow2(0) == 1);
        assert(vstd::arithmetic::power2::pow2(kk as nat) <= vstd::arithmetic::power2::pow2(52))
            by {
            if (kk as nat) < 52 {
                vstd::arithmetic::power2::lemma_pow2_strictly_increases(kk as nat, 52);
            }
        }
        vstd::arithmetic::power2::lemma_pow2_pos(kk as nat);
    }
    let p: u64 = crate::fp::round::pow2_u128(kk as u32) as u64;
    let m: u64 = (y % EXP_UNIT) + EXP_UNIT;
    let v: u64 = m / p;
    proof {
        let sc = crate::fp::arith::scale_of(y);
        if sc == 0 {
            assert(kk == 0);
            assert(p == 1);
            assert(vstd::arithmetic::power2::pow2(0) == 1);
            assert(crate::fp::arith::mant_of(y) * vstd::arithmetic::power2::pow2(0)
                == crate::fp::arith::mant_of(y));
            assert(v == m);
        } else {
            assert(sc < 0);
            assert(((-sc) as nat) == kk as nat);
        }
        assert(fp_trunc_int(y) == if sign_of(y) {
            -((v as nat) as int)
        } else {
            (v as nat) as int
        });
    }
    v % 2 == 1
}

/// Helper naming `pow2(k - 1) * 2` for the parity proof above.
pub open spec fn pow2_minus_one_times_two(k: nat) -> nat
    recommends
        k >= 1,
{
    vstd::arithmetic::power2::pow2((k - 1) as nat) * 2
}

/// Raising to a power. `x^0` and `1^y` are one for every `x` and `y`;
/// a negative base is accepted only at integral exponents; otherwise
/// `x^y == 2^(y * log2(x))`, computed with fixed-length series.
pub open spec fn fp_pow_s(x: u64, y: u64) -> u64 {
    if is_zero_s(y) {
        ONE
    } else if x == ONE {
        ONE
    } else if is_nan_s(x) || is_nan_s(y) {
        QNAN
    } else if is_inf_s(y) {
        let mag = fp_abs_s(x);
        if mag == ONE {
            ONE
        } else if (fp_lt_s(ONE, mag) && !sign_of(y)) || (fp_lt_s(mag, ONE) && sign_of(y)) {
            POS_INF
        } else {
            POS_ZERO
        }
    } else if is_inf_s(x) {
        let neg = sign_of(x) && fp_odd_int_s(y);
        if sign_of(y) {
            zero_bits(neg)
        } else {
            inf_bits(neg)
        }
    } else if is_zero_s(x) {
        let neg = sign_of(x) && fp_odd_int_s(y);
        if sign_of(y) {
            inf_bits(neg)
        } else {
            zero_bits(neg)
        }
    } else if sign_of(x) {
        if fp_floor_s(y) != y {
            QNAN
        } else {
            let mag = fp_pow_core_s(fp_abs_s(x), y);
            if fp_odd_int_s(y) {
                fp_neg_s(mag)
            } else {
                mag
            }
        }
    } else {
        fp_pow_core_s(x, y)
    }
}

/// `2^(y * log2(x))` for positive finite `x` and finite nonzero `y`,
/// saturating outside the representable exponent range.
pub open spec fn fp_pow_core_s(x: u64, y: u64) -> u64 {
    let z = fp_mul_s(y, fp_log2_s(x));
    if is_nan_s(z) {
        QNAN
    } else if !fp_lt_s(z, EXP_HI) {
        POS_INF
    } else if !fp_lt_s(EXP_LO, z) {
        POS_ZERO
    } else {
        fp_exp2_s(z)
    }
}

fn fp_pow_core(x: u64, y: u64) -> (r: u64)
    requires
        crate::fp::repr::is_finite_s(x),
        !is_zero_s(x),
        !sign_of(x),
    ensures
        r == fp_pow_core_s(x, y),
{
    let z: u64 = fp_mul(y, fp_log2(x));
    if is_nan(z) {
        QNAN
    } else if !fp_lt(z, EXP_HI) {
        POS_INF
    } else if !fp_lt(EXP_LO, z) {
        POS_ZERO
    } else {
        fp_exp2(z)
    }
}

#[verifier::rlimit(100)]
pub fn fp_pow(x: u64, y: u64) -> (r: u64)
    ensures
        r == fp_pow_s(x, y),
{
    if y % SIGN_MASK == 0 {
        return ONE;
    }
    if x == ONE {
        return ONE;
    }
    if is_nan(x) || is_nan(y) {
        return QNAN;
    }
    if !is_finite(y) {
        let mag: u64 = fp_abs(x);
        return if mag == ONE {
            ONE
        } else if (fp_lt(ONE, mag) && y < SIGN_MASK) || (fp_lt(mag, ONE) && y >= SIGN_MASK) {
            POS_INF
        } else {
            POS_ZERO
        };
    }
    if !is_finite(x) {
        let neg: bool = x >= SIGN_MASK && fp_odd_int(y);
        return if y >= SIGN_MASK {
            if neg {
                NEG_ZERO
            } else {
                POS_ZERO
            }
        } else {
            if neg {
                NEG_INF
            } else {
                POS_INF
            }
        };
    }
    if x % SIGN_MASK == 0 {
        let neg: bool = x >= SIGN_MASK && fp_odd_int(y);
        return if y >= SIGN_MASK {
            if neg {
                NEG_INF
            } else {
                POS_INF
            }
        } else {
            if neg {
                NEG_ZERO
            } else {
                POS_ZERO
            }
        };
    }
    if x >= SIGN_MASK {
        if fp_floor(y) != y {
            QNAN
        } else {
            let mag: u64 = fp_pow_core(fp_abs(x), y);
            if fp_odd_int(y) {
                fp_neg(mag)
            } else {
                mag
            }
        }
    } else {
        fp_pow_core(x, y)
    }
}

} // verus!
