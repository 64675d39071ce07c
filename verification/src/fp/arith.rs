//! Rounded binary64 arithmetic: addition, subtraction, multiplication and
//! division on bit patterns, each an exact integer computation followed by
//! round-to-nearest-even packing.

use vstd::prelude::*;
use vstd::arithmetic::power2::{
    pow2, lemma_pow2_adds, lemma_pow2_pos, lemma_pow2_strictly_increases, lemma_pow2_unfold,
    lemma2_to64, lemma2_to64_rest,
};
use vstd::arithmetic::div_mod::lemma_small_mod;
use crate::fp::repr::{
    exp_of, frac_of, inf_bits, is_finite_s, is_inf_s, is_nan_s, is_zero_s, mag_of, sign_of,
    zero_bits, fp_neg_s, fp_neg, is_nan, is_finite, EXP_UNIT, EXP_SPECIAL, SIGN_MASK, NEG_ZERO,
    POS_ZERO, NEG_INF, POS_INF, QNAN,
};
use crate::fp::round::{round_pack_s, round_pack, pow2_u128, bit_len, bit_len_u128, lemma_bit_len_le};

verus! {

/// Integer significand of a finite scalar: the fraction with the implicit
/// leading bit added for normal numbers.
pub open spec fn mant_of(a: u64) -> nat {
    if exp_of(a) == 0 {
        frac_of(a) as nat
    } else {
        (frac_of(a) + EXP_UNIT) as nat
    }
}

/// Power-of-two scale of a finite scalar: its value is
/// `(-1)^sign * mant_of(a) * 2^scale_of(a)`.
pub open spec fn scale_of(a: u64) -> int {
    if exp_of(a) == 0 {
        -1074
    } else {
        exp_of(a) - 1075
    }
}

pub proof fn lemma_mant_bounds(a: u64)
    ensures
        mant_of(a) < pow2(53),
        exp_of(a) > 0 ==> mant_of(a) >= pow2(52),
        -1074 <= scale_of(a) <= 972,
        is_finite_s(a) ==> scale_of(a) <= 971,
{
    lemma2_to64_rest();
    lemma_pow2_unfold(53);
    assert(frac_of(a) < EXP_UNIT);
    assert(exp_of(a) <= EXP_SPECIAL);
}

/// Unpack a finite scalar into sign, scale and significand.
fn unpack(a: u64) -> (r: (bool, i32, u64))
    requires
        is_finite_s(a),
    ensures
        r.0 == sign_of(a),
        r.1 as int == scale_of(a),
        r.2 as nat == mant_of(a),
        r.2 < 0x20_0000_0000_0000,
        -1074 <= r.1 <= 971,
{
    proof {
        lemma_mant_bounds(a);
        lemma2_to64_rest();
        lemma_pow2_unfold(53);
    }
    let s: bool = a >= SIGN_MASK;
    let mag: u64 = a % SIGN_MASK;
    let eb: u64 = mag / EXP_UNIT;
    let fr: u64 = a % EXP_UNIT;
    if eb == 0 {
        (s, -1074, fr)
    } else {
        (s, (eb as i32) - 1075, fr + EXP_UNIT)
    }
}

/// Lift a significand `m` at scale `2^qm` to scale `2^qs`: an exact shift
/// upward, or a shift downward that compresses all lost bits into a sticky
/// unit in the lowest kept bit.
pub open spec fn lift_sticky(m: nat, qm: int, qs: int) -> nat {
    if qm >= qs {
        m * pow2((qm - qs) as nat)
    } else {
        let k = (qs - qm) as nat;
        let t = m / pow2(k);
        if m % pow2(k) == 0 {
            t
        } else if t % 2 == 0 {
            t + 1
        } else {
            t
        }
    }
}

fn lift_sticky_u128(m: u64, qm: i32, qs: i32) -> (r: u128)
    requires
        m < 0x20_0000_0000_0000,
        qm - qs <= 55,
        -1075 <= qs <= 971,
        -1074 <= qm <= 971,
    ensures
        r as nat == lift_sticky(m as nat, qm as int, qs as int),
        r < 0x1000_0000_0000_0000_0000_0000_0000,
{
    proof {
        lemma2_to64();
        lemma2_to64_rest();
        lemma_pow2_unfold(53);
        assert(pow2(53) == 0x20_0000_0000_0000);
    }
    if qm >= qs {
        let d: u32 = (qm - qs) as u32;
        let p: u128 = pow2_u128(d);
        proof {
            assert((m as nat) * pow2(d as nat) < pow2(53) * pow2(55)) by (nonlinear_arith)
                requires
                    (m as nat) < pow2(53),
                    pow2(d as nat) <= pow2(55),
                    pow2(d as nat) > 0,
            {
            }
            assert(pow2(d as nat) <= pow2(55)) by {
                lemma_pow2_pos(d as nat);
                if (d as nat) < 55 {
                    lemma_pow2_strictly_increases(d as nat, 55);
                }
            }
            lemma_pow2_adds(53, 55);
            lemma_pow2_adds(64, 44);
            assert(pow2(108) < pow2(64) * pow2(64)) by {
                lemma_pow2_adds(64, 64);
                lemma_pow2_strictly_increases(108, 128);
            }
            assert(pow2(64) == 0x1_0000_0000_0000_0000);
            assert(pow2(44) == 0x1000_0000_0000);
            assert(pow2(108) == 0x1000_0000_0000_0000_0000_0000_0000);
        }
        (m as u128) * p
    } else {
        let k: i32 = qs - qm;
        if k >= 53 {
            proof {
                assert(pow2(53) <= pow2(k as nat)) by {
                    if 53 < k as nat {
                        lemma_pow2_strictly_increases(53, k as nat);
                    }
                }
                assert((m as nat) / pow2(k as nat) == 0) by {
                    vstd::arithmetic::div_mod::lemma_basic_div_specific_divisor(pow2(k as nat) as int);
                }
                lemma_small_mod(m as nat, pow2(k as nat));
            }
            if m == 0 {
                0
            } else {
                1
            }
        } else {
            let p: u128 = pow2_u128(k as u32);
            proof {
                lemma_pow2_pos(k as nat);
            }
            let t: u128 = (m as u128) / p;
            if (m as u128) % p == 0 {
                t
            } else if t % 2 == 0 {
                t + 1
            } else {
                t
            }
        }
    }
}

/// Rounded addition. NaN operands, and the sum of opposite infinities,
/// give the canonical NaN; an exact zero sum of nonzero operands is `+0`,
/// while `-0 + -0 == -0`.
pub open spec fn fp_add_s(a: u64, b: u64) -> u64 {
    if is_nan_s(a) || is_nan_s(b) {
        QNAN
    } else if is_inf_s(a) && is_inf_s(b) {
        if sign_of(a) == sign_of(b) {
            a
        } else {
            QNAN
        }
    } else if is_inf_s(a) {
        a
    } else if is_inf_s(b) {
        b
    } else if is_zero_s(a) && is_zero_s(b) {
        zero_bits(sign_of(a) && sign_of(b))
    } else if is_zero_s(a) {
        b
    } else if is_zero_s(b) {
        a
    } else {
        let q1 = scale_of(a);
        let q2 = scale_of(b);
        let qh = if q1 >= q2 {
            q1
        } else {
            q2
        };
        let ql = if q1 >= q2 {
            q2
        } else {
            q1
        };
        let qs = if qh - ql > 55 {
            qh - 55
        } else {
            ql
        };
        let aa = lift_sticky(mant_of(a), q1, qs);
        let bb = lift_sticky(mant_of(b), q2, qs);
        if sign_of(a) == sign_of(b) {
            round_pack_s(sign_of(a), qs, aa + bb)
        } else if aa == bb {
            POS_ZERO
        } else if aa > bb {
            round_pack_s(sign_of(a), qs, (aa - bb) as nat)
        } else {
            round_pack_s(sign_of(b), qs, (bb - aa) as nat)
        }
    }
}

/// Rounded subtraction: addition of the negated second operand.
pub open spec fn fp_sub_s(a: u64, b: u64) -> u64 {
    fp_add_s(a, fp_neg_s(b))
}

pub fn fp_add(a: u64, b: u64) -> (r: u64)
    ensures
        r == fp_add_s(a, b),
{
    let a_nan: bool = is_nan(a);
    let b_nan: bool = is_nan(b);
    if a_nan || b_nan {
        return QNAN;
    }
    let a_fin: bool = is_finite(a);
    let b_fin: bool = is_finite(b);
    if !a_fin && !b_fin {
        return if (a >= SIGN_MASK) == (b >= SIGN_MASK) {
            a
        } else {
            QNAN
        };
    }
    if !a_fin {
        return a;
    }
    if !b_fin {
        return b;
    }
    let a_zero: bool = a % SIGN_MASK == 0;
    let b_zero: bool = b % SIGN_MASK == 0;
    if a_zero && b_zero {
        return if a >= SIGN_MASK && b >= SIGN_MASK {
            NEG_ZERO
        } else {
            POS_ZERO
        };
    }
    if a_zero {
        return b;
    }
    if b_zero {
        return a;
    }
    let (s1, q1, m1) = unpack(a);
    let (s2, q2, m2) = unpack(b);
    let qh: i32 = if q1 >= q2 {
        q1
    } else {
        q2
    };
    let ql: i32 = if q1 >= q2 {
        q2
    } else {
        q1
    };
    let qs: i32 = if qh - ql > 55 {
        qh - 55
    } else {
        ql
    };
    let aa: u128 = lift_sticky_u128(m1, q1, qs);
    let bb: u128 = lift_sticky_u128(m2, q2, qs);
    if s1 == s2 {
        round_pack(s1, qs, aa + bb)
    } else if aa == bb {
        POS_ZERO
    } else if aa > bb {
        round_pack(s1, qs, aa - bb)
    } else {
        round_pack(s2, qs, bb - aa)
    }
}

pub fn fp_sub(a: u64, b: u64) -> (r: u64)
    ensures
        r == fp_sub_s(a, b),
{
    fp_add(a, fp_neg(b))
}

/// Rounded multiplication: the exact product of the significands, rounded
/// once. `0 * inf` and NaN operands give the canonical NaN.
pub open spec fn fp_mul_s(a: u64, b: u64) -> u64 {
    let s = sign_of(a) != sign_of(b);
    if is_nan_s(a) || is_nan_s(b) {
        QNAN
    } else if is_inf_s(a) {
        if is_zero_s(b) {
            QNAN
        } else {
            inf_bits(s)
        }
    } else if is_inf_s(b) {
        if is_zero_s(a) {
            QNAN
        } else {
            inf_bits(s)
        }
    } else if is_zero_s(a) || is_zero_s(b) {
        zero_bits(s)
    } else {
        round_pack_s(s, scale_of(a) + scale_of(b), mant_of(a) * mant_of(b))
    }
}

pub fn fp_mul(a: u64, b: u64) -> (r: u64)
    ensures
        r == fp_mul_s(a, b),
{
    let a_nan: bool = is_nan(a);
    let b_nan: bool = is_nan(b);
    let s: bool = (a >= SIGN_MASK) != (b >= SIGN_MASK);
    if a_nan || b_nan {
        return QNAN;
    }
    let a_fin: bool = is_finite(a);
    let b_fin: bool = is_finite(b);
    let a_zero: bool = a % SIGN_MASK == 0;
    let b_zero: bool = b % SIGN_MASK == 0;
    if !a_fin {
        return if b_zero {
            QNAN
        } else if s {
            NEG_INF
        } else {
            POS_INF
        };
    }
    if !b_fin {
        return if a_zero {
            QNAN
        } else if s {
            NEG_INF
        } else {
            POS_INF
        };
    }
    if a_zero || b_zero {
        return if s {
            NEG_ZERO
        } else {
            POS_ZERO
        };
    }
    let (s1, q1, m1) = unpack(a);
    let (s2, q2, m2) = unpack(b);
    proof {
        lemma_pow2_adds(53, 53);
        lemma_pow2_adds(64, 42);
        lemma2_to64();
        lemma2_to64_rest();
        lemma_pow2_unfold(53);
        assert(pow2(53) == 0x20_0000_0000_0000);
        assert(pow2(106) == 0x400_0000_0000_0000_0000_0000_0000);
        assert((m1 as nat) * (m2 as nat) < pow2(53) * pow2(53)) by (nonlinear_arith)
            requires
                (m1 as nat) < pow2(53),
                (m2 as nat) < pow2(53),
        {
            lemma_pow2_pos(53);
        }
    }
    let prod: u128 = (m1 as u128) * (m2 as u128);
    round_pack(s, q1 + q2, prod)
}

/// Rounded division. The quotient is computed with 60 extra bits and any
/// nonzero remainder is folded into a sticky unit before rounding.
pub open spec fn fp_div_s(a: u64, b: u64) -> u64 {
    let s = sign_of(a) != sign_of(b);
    if is_nan_s(a) || is_nan_s(b) {
        QNAN
    } else if is_inf_s(a) {
        if is_inf_s(b) {
            QNAN
        } else {
            inf_bits(s)
        }
    } else if is_inf_s(b) {
        zero_bits(s)
    } else if is_zero_s(b) {
        if is_zero_s(a) {
            QNAN
        } else {
            inf_bits(s)
        }
    } else if is_zero_s(a) {
        zero_bits(s)
    } else {
        let (m1, q1) = norm53(mant_of(a), scale_of(a));
        let (m2, q2) = norm53(mant_of(b), scale_of(b));
        let num = m1 * pow2(60);
        let quo = num / m2;
        let qq = if num % m2 == 0 {
            quo
        } else if quo % 2 == 0 {
            quo + 1
        } else {
            quo
        };
        round_pack_s(s, q1 - q2 - 60, qq)
    }
}

/// Normalise a positive significand to the range `[2^52, 2^53)`,
/// compensating in the scale.
pub open spec fn norm53(m: nat, q: int) -> (nat, int)
    decreases 53 - bit_len(m)
        when m > 0
{
    if bit_len(m) >= 53 {
        (m, q)
    } else {
        norm53(m * 2, q - 1)
    }
}

pub proof fn lemma_bit_len_double(m: nat)
    requires
        m > 0,
    ensures
        bit_len(m * 2) == bit_len(m) + 1,
{
    assert((m * 2) / 2 == m);
    assert(m * 2 != 0);
}

pub proof fn lemma_norm53_props(m: nat, q: int)
    requires
        m > 0,
        bit_len(m) <= 53,
    ensures
        norm53(m, q).0 == m * pow2((53 - bit_len(m)) as nat),
        norm53(m, q).1 == q - (53 - bit_len(m)),
        bit_len(norm53(m, q).0) == 53,
    decreases 53 - bit_len(m),
{
    if bit_len(m) >= 53 {
        lemma2_to64();
        assert(pow2(0) == 1);
        assert(m * 1 == m);
    } else {
        lemma_bit_len_double(m);
        lemma_norm53_props(m * 2, q - 1);
        assert((m * 2) * pow2((53 - bit_len(m) - 1) as nat) == m * (2 * pow2(
            (53 - bit_len(m) - 1) as nat,
        ))) by {
            vstd::arithmetic::mul::lemma_mul_is_associative(
                m as int,
                2,
                pow2((53 - bit_len(m) - 1) as nat) as int,
            );
        }
        lemma_pow2_unfold((53 - bit_len(m)) as nat);
    }
}

pub fn norm53_exec(m: u64, q: i32) -> (r: (u64, i32))
    requires
        0 < m < 0x20_0000_0000_0000,
        -1074 <= q <= 971,
    ensures
        (r.0 as nat, r.1 as int) == norm53(m as nat, q as int),
        0x10_0000_0000_0000 <= r.0 < 0x20_0000_0000_0000,
        -1126 <= r.1 <= 971,
{
    proof {
        lemma2_to64_rest();
        lemma_pow2_unfold(53);
        lemma_bit_len_le(m as nat, 53);
        crate::fp::round::lemma_bit_len_bounds(m as nat);
    }
    let mut mm: u64 = m;
    let mut qq: i32 = q;
    while mm < 0x10_0000_0000_0000
        invariant
            0 < mm < 0x20_0000_0000_0000,
            -1074 <= q <= 971,
            0 < m,
            q - 52 <= qq <= q,
            bit_len(m as nat) >= 1,
            qq == q as int - (bit_len(mm as nat) - bit_len(m as nat)),
            norm53(mm as nat, qq as int) == norm53(m as nat, q as int),
            bit_len(mm as nat) <= 53,
        decreases 53 - bit_len(mm as nat),
    {
        proof {
            lemma2_to64_rest();
            crate::fp::round::lemma_bit_len_bounds(mm as nat);
            assert(bit_len(mm as nat) < 53) by {
                if bit_len(mm as nat) == 53 {
                    assert(pow2(52) <= mm as nat);
                }
            }
            lemma_bit_len_double(mm as nat);
            assert(qq > q - 52) by {
                if qq == q - 52 {
                    assert(bit_len(mm as nat) == bit_len(m as nat) + 52);
                    assert(bit_len(mm as nat) >= 53);
                    assert(false);
                }
            }
        }
        mm = mm * 2;
        qq = qq - 1;
    }
    proof {
        crate::fp::round::lemma_bit_len_bounds(mm as nat);
        lemma2_to64_rest();
        assert(bit_len(mm as nat) == 53) by {
            if bit_len(mm as nat) < 53 {
                if bit_len(mm as nat) < 52 {
                    lemma_pow2_strictly_increases(bit_len(mm as nat), 52);
                }
                assert(pow2(bit_len(mm as nat)) <= pow2(52));
                assert((mm as nat) < pow2(52));
                assert(false);
            }
        }
    }
    (mm, qq)
}

pub fn fp_div(a: u64, b: u64) -> (r: u64)
    ensures
        r == fp_div_s(a, b),
{
    let a_nan: bool = is_nan(a);
    let b_nan: bool = is_nan(b);
    let s: bool = (a >= SIGN_MASK) != (b >= SIGN_MASK);
    if a_nan || b_nan {
        return QNAN;
    }
    let a_fin: bool = is_finite(a);
    let b_fin: bool = is_finite(b);
    let a_zero: bool = a % SIGN_MASK == 0;
    let b_zero: bool = b % SIGN_MASK == 0;
    if !a_fin {
        return if !b_fin {
            QNAN
        } else if s {
            NEG_INF
        } else {
            POS_INF
        };
    }
    if !b_fin {
        return if s {
            NEG_ZERO
        } else {
            POS_ZERO
        };
    }
    if b_zero {
        return if a_zero {
            QNAN
        } else if s {
            NEG_INF
        } else {
            POS_INF
        };
    }
    if a_zero {
        return if s {
            NEG_ZERO
        } else {
            POS_ZERO
        };
    }
    let (s1, q1a, m1a) = unpack(a);
    let (s2, q2a, m2a) = unpack(b);
    let (m1, q1) = norm53_exec(m1a, q1a);
    let (m2, q2) = norm53_exec(m2a, q2a);
    proof {
        lemma2_to64();
        lemma2_to64_rest();
        lemma_pow2_adds(53, 60);
        lemma_pow2_adds(64, 49);
        assert(pow2(60) == 0x1000_0000_0000_0000);
        assert(pow2(113) == 0x2_0000_0000_0000_0000_0000_0000_0000);
        assert((m1 as nat) * pow2(60) < pow2(53) * pow2(60)) by {
            lemma_pow2_pos(60);
            vstd::arithmetic::mul::lemma_mul_strict_inequality(
                m1 as int,
                pow2(53) as int,
                pow2(60) as int,
            );
        }
        assert(pow2(53) == 0x20_0000_0000_0000) by {
            lemma_pow2_unfold(53);
        }
    }
    let num: u128 = (m1 as u128) * 0x1000_0000_0000_0000;
    let quo: u128 = num / (m2 as u128);
    let rem: u128 = num % (m2 as u128);
    let qq: u128 = if rem == 0 {
        quo
    } else if quo % 2 == 0 {
        proof {
            vstd::arithmetic::div_mod::lemma_div_nonincreasing(num as int, m2 as int);
            assert(quo <= num);
        }
        quo + 1
    } else {
        quo
    };
    round_pack(s, q1 - q2 - 60, qq)
}

} // verus!

verus! {

/// Subtracting a finite scalar from itself gives positive zero exactly.
pub proof fn lemma_sub_self(v: u64)
    requires
        is_finite_s(v),
    ensures
        fp_sub_s(v, v) == crate::fp::repr::POS_ZERO,
{
    let nv = fp_neg_s(v);
    assert(mant_of(nv) == mant_of(v));
    assert(scale_of(nv) == scale_of(v));
    if !is_zero_s(v) {
        lemma2_to64();
        assert(lift_sticky(mant_of(v), scale_of(v), scale_of(v)) == mant_of(v) * pow2(0));
        assert(mant_of(v) * pow2(0) == mant_of(v) * 1);
    }
}

/// Multiplying a non-NaN scalar by one returns it unchanged.
pub proof fn lemma_mul_one(v: u64)
    requires
        !is_nan_s(v),
    ensures
        fp_mul_s(crate::fp::intpart::ONE, v) == v,
{
    let one = crate::fp::intpart::ONE;
    assert(!is_nan_s(one) && !is_inf_s(one) && !is_zero_s(one));
    assert(mant_of(one) == pow2(52)) by {
        lemma2_to64_rest();
    }
    assert(scale_of(one) == -52);
    if is_inf_s(v) {
        assert(fp_mul_s(one, v) == inf_bits(sign_of(v)));
        assert(inf_bits(sign_of(v)) == v);
    } else if is_zero_s(v) {
        assert(fp_mul_s(one, v) == zero_bits(sign_of(v)));
        assert(zero_bits(sign_of(v)) == v);
    } else {
        let m = mant_of(v);
        let q = scale_of(v);
        crate::fp::intpart::lemma_round_pack_id(v);
        lemma_mant_bounds(v);
        lemma2_to64();
        lemma2_to64_rest();
        lemma_pow2_unfold(53);
        // the product is the significand shifted up by 52 bits, at a
        // scale 52 lower: the packed result is unchanged
        let mm = pow2(52) * m;
        assert(mm == m * pow2(52)) by {
            vstd::arithmetic::mul::lemma_mul_is_commutative(m as int, pow2(52) as int);
        }
        crate::fp::round::lemma_bit_len_bounds(m);
        let l = bit_len(m);
        assert(bit_len(mm) == l + 52) by {
            assert(pow2((l - 1) as nat) * pow2(52) <= mm) by {
                vstd::arithmetic::mul::lemma_mul_inequality(
                    pow2((l - 1) as nat) as int,
                    m as int,
                    pow2(52) as int,
                );
            }
            assert(mm < pow2(l) * pow2(52)) by {
                lemma_pow2_pos(52);
                vstd::arithmetic::mul::lemma_mul_strict_inequality(
                    m as int,
                    pow2(l) as int,
                    pow2(52) as int,
                );
            }
            lemma_pow2_adds((l - 1) as nat, 52);
            lemma_pow2_adds(l, 52);
            crate::fp::round::lemma_bit_len_unique(mm, l + 52);
        }
        assert(crate::fp::round::rne_shift(mm, 52) == m) by {
            lemma_pow2_pos(52);
            assert(mm / pow2(52) == m) by {
                vstd::arithmetic::div_mod::lemma_div_multiples_vanish(
                    m as int,
                    pow2(52) as int,
                );
            }
            assert(mm % pow2(52) == 0) by {
                vstd::arithmetic::div_mod::lemma_mod_multiples_basic(m as int, pow2(52) as int);
            }
        }
        let e = l + 52 - 1 + (q - 52);
        assert(e == l - 1 + q);
        if exp_of(v) > 0 {
            assert(l == 53) by {
                crate::fp::round::lemma_bit_len_unique(m, 53);
            }
            assert(-1022 <= e <= 1023);
            assert(fp_mul_s(one, v) == round_pack_s(sign_of(v), q - 52, mm));
            assert(round_pack_s(sign_of(v), q - 52, mm) == crate::fp::round::pack_normal(
                sign_of(v),
                e + 1023,
                m,
            ));
            assert(round_pack_s(sign_of(v), q, m) == v);
        } else {
            // subnormal: the shifted significand rounds back exactly
            assert(q == -1074);
            assert(m < pow2(52));
            crate::fp::round::lemma_bit_len_le(m, 52);
            assert(e < -1022);
            assert(e >= -1074);
            assert(fp_mul_s(one, v) == round_pack_s(sign_of(v), q - 52, mm));
            assert(round_pack_s(sign_of(v), q - 52, mm) == crate::fp::round::pack_sub(
                sign_of(v),
                m,
            ));
            assert(round_pack_s(sign_of(v), q, m) == v);
        }
    }
}

} // verus!
