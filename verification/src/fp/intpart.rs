//! Integer-related binary64 operations: floor, conversion to and from
//! 32-bit integers, and the exact floating-point remainder.

use vstd::prelude::*;
use vstd::arithmetic::power2::{
    pow2, lemma_pow2_adds, lemma_pow2_pos, lemma_pow2_strictly_increases, lemma_pow2_unfold,
    lemma2_to64, lemma2_to64_rest,
};
use crate::fp::repr::{
    exp_of, frac_of, inf_bits, is_finite_s, is_inf_s, is_nan_s, is_zero_s, sign_of, zero_bits,
    is_nan, is_finite, EXP_UNIT, SIGN_MASK, NEG_ZERO, POS_ZERO, QNAN,
};
use crate::fp::arith::{mant_of, scale_of, lemma_mant_bounds};
use crate::fp::round::{round_pack_s, round_pack, pow2_u128, lemma_bit_len_le};

verus! {

/// The scalar negative one.
pub const NEG_ONE: u64 = 0xBFF0000000000000;

/// The scalar one.
pub const ONE: u64 = 0x3FF0000000000000;

/// Largest power of two below which every scalar is an integer multiple
/// of its unit in the last place: biased exponent of `2^52`.
pub const EXP_INTEGRAL: u64 = 1075;

/// Rounding toward negative infinity to an integral scalar.
///
/// NaN and infinities are returned unchanged, as is every value of
/// magnitude at least `2^52`, which is already integral.
pub open spec fn fp_floor_s(a: u64) -> u64 {
    if !is_finite_s(a) {
        a
    } else if exp_of(a) >= EXP_INTEGRAL {
        a
    } else if is_zero_s(a) {
        a
    } else if exp_of(a) < 1023 {
        if sign_of(a) {
            NEG_ONE
        } else {
            POS_ZERO
        }
    } else {
        let k = (EXP_INTEGRAL - exp_of(a)) as nat;
        let whole = (mant_of(a) / pow2(k)) * pow2(k);
        if whole == mant_of(a) {
            a
        } else if sign_of(a) {
            round_pack_s(true, scale_of(a), (whole + pow2(k)) as nat)
        } else {
            round_pack_s(false, scale_of(a), whole)
        }
    }
}

pub fn fp_floor(a: u64) -> (r: u64)
    ensures
        r == fp_floor_s(a),
{
    if !is_finite(a) {
        return a;
    }
    let mag: u64 = a % SIGN_MASK;
    let eb: u64 = mag / EXP_UNIT;
    if eb >= EXP_INTEGRAL {
        return a;
    }
    if mag == 0 {
        return a;
    }
    if eb < 1023 {
        return if a >= SIGN_MASK {
            NEG_ONE
        } else {
            POS_ZERO
        };
    }
    let k: u64 = EXP_INTEGRAL - eb;
    proof {
        lemma_mant_bounds(a);
        lemma2_to64();
        lemma2_to64_rest();
        lemma_pow2_unfold(53);
        assert(1 <= k <= 52);
    }
    let p: u64 = pow2_u128(k as u32) as u64;
    proof {
        assert(pow2(k as nat) <= pow2(52)) by {
            if (k as nat) < 52 {
                lemma_pow2_strictly_increases(k as nat, 52);
            }
        }
        lemma_pow2_pos(k as nat);
    }
    let m: u64 = (a % EXP_UNIT) + EXP_UNIT;
    proof {
        vstd::arithmetic::div_mod::lemma_fundamental_div_mod(m as int, p as int);
        vstd::arithmetic::mul::lemma_mul_is_commutative(p as int, (m / p) as int);
        assert(((m / p) as int) * (p as int) <= m);
        assert(((m as nat) / pow2(k as nat) + 1) * pow2(k as nat) <= pow2(53)) by {
            vstd::arithmetic::power2::lemma_pow2_subtracts(k as nat, 53);
            lemma_pow2_adds(k as nat, (53 - k as nat) as nat);
            vstd::arithmetic::div_mod::lemma_multiply_divide_lt(
                m as int,
                pow2(k as nat) as int,
                pow2((53 - k as nat) as nat) as int,
            );
            vstd::arithmetic::mul::lemma_mul_inequality(
                ((m as nat) / pow2(k as nat) + 1) as int,
                pow2((53 - k as nat) as nat) as int,
                pow2(k as nat) as int,
            );
            vstd::arithmetic::mul::lemma_mul_is_commutative(
                pow2((53 - k as nat) as nat) as int,
                pow2(k as nat) as int,
            );
        }
        assert(((m as nat) / pow2(k as nat) + 1) * pow2(k as nat) == ((m as nat) / pow2(
            k as nat,
        )) * pow2(k as nat) + pow2(k as nat)) by {
            vstd::arithmetic::mul::lemma_mul_is_distributive_add_other_way(
                pow2(k as nat) as int,
                ((m as nat) / pow2(k as nat)) as int,
                1,
            );
        }
    }
    let whole: u64 = (m / p) * p;
    if whole == m {
        a
    } else if a >= SIGN_MASK {
        round_pack(true, (eb as i32) - 1075, (whole + p) as u128)
    } else {
        round_pack(false, (eb as i32) - 1075, whole as u128)
    }
}

/// Truncated integer value of a finite scalar, as a mathematical integer.
pub open spec fn fp_trunc_int(a: u64) -> int {
    if exp_of(a) < 1023 {
        0
    } else {
        let v = if scale_of(a) >= 0 {
            mant_of(a) * pow2(scale_of(a) as nat)
        } else {
            mant_of(a) / pow2((-scale_of(a)) as nat)
        };
        if sign_of(a) {
            -(v as int)
        } else {
            v as int
        }
    }
}

/// Conversion to `i32` with truncation toward zero, saturating at the
/// type bounds; NaN converts to 0.
pub open spec fn fp_to_i32_s(a: u64) -> i32 {
    if is_nan_s(a) {
        0
    } else if is_inf_s(a) {
        if sign_of(a) {
            i32::MIN
        } else {
            i32::MAX
        }
    } else if fp_trunc_int(a) < i32::MIN {
        i32::MIN
    } else if fp_trunc_int(a) > i32::MAX {
        i32::MAX
    } else {
        fp_trunc_int(a) as i32
    }
}

pub fn fp_to_i32(a: u64) -> (r: i32)
    ensures
        r == fp_to_i32_s(a),
{
    if is_nan(a) {
        return 0;
    }
    if !is_finite(a) {
        return if a >= SIGN_MASK {
            i32::MIN
        } else {
            i32::MAX
        };
    }
    let s: bool = a >= SIGN_MASK;
    let mag: u64 = a % SIGN_MASK;
    let eb: u64 = mag / EXP_UNIT;
    if eb < 1023 {
        return 0;
    }
    proof {
        lemma_mant_bounds(a);
        lemma2_to64();
        lemma2_to64_rest();
        lemma_pow2_unfold(53);
    }
    let m: u64 = (a % EXP_UNIT) + EXP_UNIT;
    if eb >= 1023 + 31 {
        // magnitude is at least 2^31, beyond every i32 but the lowest
        proof {
            assert(fp_trunc_int(a) >= pow2(31) || fp_trunc_int(a) <= -pow2(31)) by {
                if scale_of(a) >= 0 {
                    assert(mant_of(a) * pow2(scale_of(a) as nat) >= pow2(52) * 1) by {
                        lemma_pow2_pos(scale_of(a) as nat);
                        vstd::arithmetic::mul::lemma_mul_inequality(
                            1,
                            pow2(scale_of(a) as nat) as int,
                            mant_of(a) as int,
                        );
                        vstd::arithmetic::mul::lemma_mul_is_commutative(
                            mant_of(a) as int,
                            pow2(scale_of(a) as nat) as int,
                        );
                    }
                    lemma_pow2_strictly_increases(31, 52);
                } else {
                    let kk = (-scale_of(a)) as nat;
                    assert(kk <= 21);
                    assert(mant_of(a) >= pow2(52));
                    assert(mant_of(a) / pow2(kk) >= pow2(31)) by {
                        vstd::arithmetic::div_mod::lemma_div_is_ordered(
                            pow2(52) as int,
                            mant_of(a) as int,
                            pow2(kk) as int,
                        );
                        vstd::arithmetic::power2::lemma_pow2_subtracts(kk, 52);
                        assert(pow2((52 - kk) as nat) >= pow2(31)) by {
                            if 31 < 52 - kk {
                                lemma_pow2_strictly_increases(31, (52 - kk) as nat);
                            }
                        }
                    }
                    lemma_pow2_pos(kk);
                }
                assert(pow2(31) == 0x80000000);
            }
        }
        return if s {
            i32::MIN
        } else {
            i32::MAX
        };
    }
    // 1023 <= eb <= 1053: scale in [-52, -22]
    let kk: u64 = 1075 - eb;
    proof {
        assert(22 <= kk <= 52);
        lemma_pow2_pos(kk as nat);
        assert(pow2(kk as nat) <= pow2(52)) by {
            if (kk as nat) < 52 {
                lemma_pow2_strictly_increases(kk as nat, 52);
            }
        }
    }
    let p: u64 = pow2_u128(kk as u32) as u64;
    let v: u64 = m / p;
    proof {
        assert((v as nat) < pow2(31)) by {
            assert((m as nat) < pow2(kk as nat + 31)) by {
                assert(kk as nat + 31 >= 53);
                assert(pow2(53) <= pow2(kk as nat + 31)) by {
                    if 53 < kk as nat + 31 {
                        lemma_pow2_strictly_increases(53, kk as nat + 31);
                    }
                }
            }
            lemma_pow2_adds(kk as nat, 31);
            vstd::arithmetic::div_mod::lemma_multiply_divide_lt(
                m as int,
                pow2(kk as nat) as int,
                pow2(31) as int,
            );
        }
        assert(pow2(31) == 0x80000000);
    }
    if s {
        -(v as i32)
    } else {
        v as i32
    }
}

/// Exact conversion of an `i32` to a scalar.
pub open spec fn fp_from_i32_s(n: i32) -> u64 {
    if n >= 0 {
        round_pack_s(false, 0, n as nat)
    } else {
        round_pack_s(true, 0, (-(n as int)) as nat)
    }
}

pub fn fp_from_i32(n: i32) -> (r: u64)
    ensures
        r == fp_from_i32_s(n),
{
    if n >= 0 {
        round_pack(false, 0, n as u128)
    } else if n == i32::MIN {
        round_pack(true, 0, 0x80000000u128)
    } else {
        round_pack(true, 0, (-n) as u128)
    }
}

/// Exact conversion of an `i64` with magnitude below `2^53`; larger
/// magnitudes round to nearest even.
pub open spec fn fp_from_i64_s(n: int) -> u64 {
    if n >= 0 {
        round_pack_s(false, 0, n as nat)
    } else {
        round_pack_s(true, 0, (-n) as nat)
    }
}

pub fn fp_from_i64(n: i64) -> (r: u64)
    ensures
        r == fp_from_i64_s(n as int),
{
    if n >= 0 {
        round_pack(false, 0, n as u128)
    } else if n == i64::MIN {
        round_pack(true, 0, 0x8000000000000000u128)
    } else {
        round_pack(true, 0, (-n) as u128)
    }
}

/// Remainder of truncated division: for finite nonzero operands the exact
/// value `a - b * trunc(a / b)`, which is always representable. Follows
/// the sign of `a`. NaN operands, an infinite `a` or a zero `b` give the
/// canonical NaN; a zero `a` or an infinite `b` return `a` unchanged.
pub open spec fn fp_mod_s(a: u64, b: u64) -> u64 {
    if is_nan_s(a) || is_nan_s(b) || is_inf_s(a) || is_zero_s(b) {
        QNAN
    } else if is_zero_s(a) || is_inf_s(b) {
        a
    } else {
        let m1 = mant_of(a);
        let q1 = scale_of(a);
        let m2 = mant_of(b);
        let q2 = scale_of(b);
        if q1 >= q2 {
            round_pack_s(sign_of(a), q2, (m1 * pow2((q1 - q2) as nat)) % m2)
        } else {
            round_pack_s(sign_of(a), q1, m1 % (m2 * pow2((q2 - q1) as nat)))
        }
    }
}

pub fn fp_mod(a: u64, b: u64) -> (r: u64)
    ensures
        r == fp_mod_s(a, b),
{
    let a_nan: bool = is_nan(a);
    let b_nan: bool = is_nan(b);
    let a_fin: bool = is_finite(a);
    let b_fin: bool = is_finite(b);
    if a_nan || b_nan || !a_fin || b % SIGN_MASK == 0 {
        return QNAN;
    }
    if a % SIGN_MASK == 0 || !b_fin {
        return a;
    }
    let (s1, q1, m1) = unpack_pub(a);
    let (s2, q2, m2) = unpack_pub(b);
    if q1 >= q2 {
        let d: u32 = (q1 - q2) as u32;
        let mut r: u64 = m1 % m2;
        let mut i: u32 = 0;
        proof {
            lemma2_to64();
            assert(pow2(0) == 1);
            assert((m1 as nat) * 1 == m1 as nat);
        }
        while i < d
            invariant
                0 < m2 < 0x20_0000_0000_0000,
                r < m2,
                i <= d,
                r as nat == ((m1 as nat) * pow2(i as nat)) % (m2 as nat),
            decreases d - i,
        {
            proof {
                lemma_pow2_unfold((i + 1) as nat);
                assert(((2 * (r as nat)) % (m2 as nat)) == ((m1 as nat) * pow2((i + 1) as nat))
                    % (m2 as nat)) by {
                    assert((m1 as nat) * pow2((i + 1) as nat) == ((m1 as nat) * pow2(i as nat))
                        * 2) by {
                        vstd::arithmetic::mul::lemma_mul_is_associative(
                            m1 as int,
                            pow2(i as nat) as int,
                            2,
                        );
                    }
                    vstd::arithmetic::div_mod::lemma_mul_mod_noop_left(
                        ((m1 as nat) * pow2(i as nat)) as int,
                        2,
                        m2 as int,
                    );
                    vstd::arithmetic::mul::lemma_mul_is_commutative(
                        r as int,
                        2,
                    );
                }
            }
            r = (2 * r) % m2;
            i = i + 1;
        }
        round_pack(s1, q2, r as u128)
    } else {
        // b's scale exceeds a's, so b is normal and its magnitude exceeds
        // a's significand at a's scale: the remainder is a itself.
        let d: u32 = (q2 - q1) as u32;
        proof {
            assert(exp_of(b) > 0);
            assert(m2 as nat >= pow2(52)) by {
                lemma_mant_bounds(b);
            }
            assert((m2 as nat) * pow2(d as nat) >= pow2(52) * 2) by {
                lemma_pow2_pos(d as nat);
                assert(pow2(d as nat) >= 2) by {
                    lemma_pow2_unfold(d as nat);
                    lemma_pow2_pos((d - 1) as nat);
                }
                vstd::arithmetic::mul::lemma_mul_inequality(
                    2,
                    pow2(d as nat) as int,
                    m2 as int,
                );
                vstd::arithmetic::mul::lemma_mul_inequality(
                    pow2(52) as int,
                    m2 as int,
                    pow2(d as nat) as int,
                );
                vstd::arithmetic::mul::lemma_mul_is_commutative(m2 as int, pow2(d as nat) as int);
                vstd::arithmetic::mul::lemma_mul_is_commutative(2, pow2(d as nat) as int);
            }
            lemma2_to64_rest();
            lemma_pow2_unfold(53);
            assert((m1 as nat) < (m2 as nat) * pow2(d as nat));
            vstd::arithmetic::div_mod::lemma_small_mod(
                m1 as nat,
                ((m2 as nat) * pow2(d as nat)) as nat,
            );
            lemma_round_pack_id(a);
        }
        a
    }
}

/// Repacking the unpacked form of a finite nonzero scalar returns the
/// same bit pattern.
pub proof fn lemma_round_pack_id(a: u64)
    requires
        is_finite_s(a),
        !is_zero_s(a),
    ensures
        round_pack_s(sign_of(a), scale_of(a), mant_of(a)) == a,
{
    lemma_mant_bounds(a);
    lemma2_to64();
    lemma2_to64_rest();
    lemma_pow2_unfold(53);
    let m = mant_of(a);
    let l = crate::fp::round::bit_len(m) as int;
    crate::fp::round::lemma_bit_len_bounds(m);
    lemma_bit_len_le(m, 53);
    if exp_of(a) == 0 {
        // subnormal: q == -1074, m < 2^52, exact sub pack
        assert(m < pow2(52));
        lemma_bit_len_le(m, 52);
        let e = l - 1 + scale_of(a);
        assert(e < -1022);
        assert(e >= -1075);
        if e == -1075 {
            assert(l == 0);
            assert(false);
        }
        assert((m as nat) * pow2((scale_of(a) + 1074) as nat) == m * 1);
        assert(crate::fp::round::pack_sub(sign_of(a), m) == a);
    } else {
        // normal: m in [2^52, 2^53)
        assert(pow2(52) <= m < pow2(53));
        crate::fp::round::lemma_bit_len_unique(m, 53);
        let e = l - 1 + scale_of(a);
        assert(l == 53);
        assert(e == exp_of(a) - 1023);
        assert(1 <= exp_of(a) <= 2046);
        assert(-1022 <= e <= 1023);
        assert(crate::fp::round::rne_shift(m, 0) == m) by {
            lemma2_to64();
        }
        assert((m as nat) * pow2(0) == m * 1);
        assert(crate::fp::round::pack_normal(sign_of(a), e + 1023, m) == a);
    }
}

/// Public unpacking helper shared by the integer-part operations.
pub fn unpack_pub(a: u64) -> (r: (bool, i32, u64))
    requires
        is_finite_s(a),
    ensures
        r.0 == sign_of(a),
        r.1 as int == scale_of(a),
        r.2 as nat == mant_of(a),
        r.2 < 0x20_0000_0000_0000,
        -1074 <= r.1 <= 971,
{
    proof {
        lemma_mant_bounds(a);
        lemma2_to64_rest();
        lemma_pow2_unfold(53);
    }
    let s: bool = a >= SIGN_MASK;
    let mag: u64 = a % SIGN_MASK;
    let eb: u64 = mag / EXP_UNIT;
    let fr: u64 = a % EXP_UNIT;
    if eb == 0 {
        (s, -1074, fr)
    } else {
        (s, (eb as i32) - 1075, fr + EXP_UNIT)
    }
}

} // verus!
