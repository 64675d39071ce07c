//! Rounded binary64 square root, built on an exact integer square root.

use vstd::prelude::*;
use vstd::arithmetic::power2::{
    pow2, lemma_pow2_adds, lemma_pow2_pos, lemma_pow2_strictly_increases, lemma_pow2_unfold,
    lemma2_to64, lemma2_to64_rest,
};
use crate::fp::repr::{is_inf_s, is_nan_s, is_zero_s, sign_of, is_nan, is_finite, SIGN_MASK, QNAN};
use crate::fp::arith::{mant_of, scale_of, norm53};
use crate::fp::round::{round_pack_s, round_pack, pow2_u128};

verus! {

/// Integer square root: the unique `r` with `r * r <= n < (r+1) * (r+1)`.
pub open spec fn isqrt_s(n: nat) -> nat
    decreases n,
{
    if n == 0 {
        0
    } else {
        let r = 2 * isqrt_s(n / 4);
        if (r + 1) * (r + 1) <= n {
            r + 1
        } else {
            r
        }
    }
}

pub proof fn lemma_isqrt_bounds(n: nat)
    ensures
        isqrt_s(n) * isqrt_s(n) <= n,
        n < (isqrt_s(n) + 1) * (isqrt_s(n) + 1),
    decreases n,
{
    if n == 0 {
        assert(isqrt_s(n) == 0);
        assert((isqrt_s(n) + 1) * (isqrt_s(n) + 1) == 1) by (nonlinear_arith)
            requires
                isqrt_s(n) == 0,
        {
        }
    } else {
        lemma_isqrt_bounds(n / 4);
        let r0 = isqrt_s(n / 4);
        let r = 2 * r0;
        assert(4 * (n / 4) <= n && n <= 4 * (n / 4) + 3) by {
            vstd::arithmetic::div_mod::lemma_fundamental_div_mod(n as int, 4);
        }
        assert(r * r <= n) by (nonlinear_arith)
            requires
                r == 2 * r0,
                r0 * r0 <= n / 4,
                4 * (n / 4) <= n,
        {
        }
        assert(n < (r + 2) * (r + 2)) by (nonlinear_arith)
            requires
                r == 2 * r0,
                n / 4 < (r0 + 1) * (r0 + 1),
                n <= 4 * (n / 4) + 3,
        {
        }
        if (r + 1) * (r + 1) <= n {
            assert(isqrt_s(n) == r + 1);
            assert(isqrt_s(n) * isqrt_s(n) <= n);
            assert(n < (isqrt_s(n) + 1) * (isqrt_s(n) + 1));
        } else {
            assert(isqrt_s(n) == r);
            assert(isqrt_s(n) * isqrt_s(n) <= n);
            assert(n < (isqrt_s(n) + 1) * (isqrt_s(n) + 1));
        }
    }
}

pub proof fn lemma_isqrt_unique(n: nat, r: nat)
    requires
        r * r <= n,
        n < (r + 1) * (r + 1),
    ensures
        r == isqrt_s(n),
{
    lemma_isqrt_bounds(n);
    let s = isqrt_s(n);
    if r < s {
        assert((r + 1) * (r + 1) <= s * s) by (nonlinear_arith)
            requires
                r + 1 <= s,
        {
        }
        assert(false);
    }
    if s < r {
        assert((s + 1) * (s + 1) <= r * r) by (nonlinear_arith)
            requires
                s + 1 <= r,
        {
        }
        assert(false);
    }
}

pub fn isqrt_u128(n: u128) -> (r: u128)
    requires
        (n as nat) < pow2(116),
    ensures
        r as nat == isqrt_s(n as nat),
        r < pow2(58),
{
    proof {
        lemma_pow2_adds(58, 58);
    }
    let mut r: u128 = 0;
    let mut i: u32 = 58;
    while i > 0
        invariant
            i <= 58,
            (n as nat) < pow2(116),
            (r as nat) * (r as nat) <= n as nat,
            (n as nat) < ((r as nat) + pow2(i as nat)) * ((r as nat) + pow2(i as nat)),
            (r as nat) + pow2(i as nat) <= pow2(58),
        decreases i,
    {
        let ii: u32 = i - 1;
        let b: u128 = pow2_u128(ii);
        proof {
            lemma_pow2_pos(ii as nat);
            lemma_pow2_unfold(i as nat);
            assert((r as nat) + pow2(ii as nat) <= pow2(58));
            lemma_pow2_adds(58, 58);
            assert(pow2(58) * pow2(58) == pow2(116));
            assert(((r as nat) + pow2(ii as nat)) * ((r as nat) + pow2(ii as nat)) <= pow2(58)
                * pow2(58)) by (nonlinear_arith)
                requires
                    (r as nat) + pow2(ii as nat) <= pow2(58),
            {
            }
            lemma_pow2_strictly_increases(116, 128);
            lemma_pow2_adds(64, 64);
            lemma2_to64();
            lemma2_to64_rest();
            assert(pow2(128) == 0x100000000000000000000000000000000);
        }
        let c: u128 = r + b;
        if c * c <= n {
            proof {
                // the two-power step keeps the upper bound
                assert((n as nat) < ((c as nat) + pow2(ii as nat)) * ((c as nat) + pow2(
                    ii as nat,
                ))) by {
                    assert((c as nat) + pow2(ii as nat) == (r as nat) + pow2(i as nat));
                }
            }
            r = c;
        } else {
            proof {
                assert((n as nat) < ((r as nat) + pow2(ii as nat)) * ((r as nat) + pow2(
                    ii as nat,
                )));
            }
        }
        i = ii;
    }
    proof {
        lemma2_to64();
        assert(pow2(0) == 1);
        lemma_isqrt_unique(n as nat, r as nat);
        assert((r as nat) < pow2(58)) by (nonlinear_arith)
            requires
                (r as nat) + 1 <= pow2(58),
        {
        }
    }
    r
}

/// Rounded square root. `sqrt(-0) == -0`; the square root of a negative
/// value or a NaN is the canonical NaN.
pub open spec fn fp_sqrt_s(a: u64) -> u64 {
    if is_nan_s(a) {
        QNAN
    } else if is_zero_s(a) {
        a
    } else if sign_of(a) {
        QNAN
    } else if is_inf_s(a) {
        a
    } else {
        let nq = norm53(mant_of(a), scale_of(a));
        let m = nq.0;
        let q = nq.1;
        let mm = if q % 2 == 0 {
            m * pow2(60)
        } else {
            m * pow2(61)
        };
        let t = if q % 2 == 0 {
            q / 2
        } else {
            (q - 1) / 2
        };
        let sr = isqrt_s(mm);
        let qq = if sr * sr == mm {
            sr
        } else if sr % 2 == 0 {
            sr + 1
        } else {
            sr
        };
        round_pack_s(false, t - 30, qq)
    }
}

pub fn fp_sqrt(a: u64) -> (r: u64)
    ensures
        r == fp_sqrt_s(a),
{
    if is_nan(a) {
        return QNAN;
    }
    if a % SIGN_MASK == 0 {
        return a;
    }
    if a >= SIGN_MASK {
        return QNAN;
    }
    if !is_finite(a) {
        return a;
    }
    let (s1, q1, m1) = crate::fp::intpart::unpack_pub(a);
    let (m, q) = crate::fp::arith::norm53_exec(m1, q1);
    proof {
        lemma2_to64();
        lemma2_to64_rest();
        lemma_pow2_unfold(53);
        assert(pow2(53) == 0x20_0000_0000_0000);
        assert((m as nat) * pow2(61) < pow2(53) * pow2(61)) by {
            lemma_pow2_pos(61);
            vstd::arithmetic::mul::lemma_mul_strict_inequality(
                m as int,
                pow2(53) as int,
                pow2(61) as int,
            );
        }
        assert((m as nat) * pow2(60) < pow2(53) * pow2(61)) by {
            lemma_pow2_pos(60);
            lemma_pow2_strictly_increases(60, 61);
            vstd::arithmetic::mul::lemma_mul_strictly_positive(m as int, pow2(60) as int);
            vstd::arithmetic::mul::lemma_mul_upper_bound(
                m as int,
                (pow2(53) - 1) as int,
                pow2(60) as int,
                pow2(61) as int,
            );
        }
        lemma_pow2_adds(53, 61);
        lemma_pow2_strictly_increases(114, 116);
        lemma_pow2_strictly_increases(116, 128);
        lemma_pow2_adds(64, 64);
        assert(pow2(128) == 0x100000000000000000000000000000000);
        lemma_pow2_adds(58, 58);
        assert(pow2(60) == 0x1000000000000000);
        assert(pow2(61) == 0x2000000000000000);
    }
    let qa: u32 = (q + 1126) as u32;
    let even: bool = qa % 2 == 0;
    proof {
        assert(even <==> (q as int) % 2 == 0);
    }
    let mm: u128 = if even {
        (m as u128) * 0x1000000000000000
    } else {
        (m as u128) * 0x2000000000000000
    };
    let t: i32 = if even {
        (qa / 2) as i32 - 563
    } else {
        ((qa - 1) / 2) as i32 - 563
    };
    proof {
        assert(even ==> (q as int) / 2 == t as int);
        assert(!even ==> ((q as int) - 1) / 2 == t as int);
    }
    let sr: u128 = isqrt_u128(mm);
    proof {
        assert((sr as nat) * (sr as nat) < pow2(58) * pow2(58)) by (nonlinear_arith)
            requires
                (sr as nat) < pow2(58),
        {
        }
    }
    let qq: u128 = if sr * sr == mm {
        sr
    } else if sr % 2 == 0 {
        proof {
            assert((sr as nat) + 1 <= pow2(58));
            lemma_pow2_strictly_increases(58, 128);
        }
        sr + 1
    } else {
        sr
    };
    round_pack(false, t - 30, qq)
}

} // verus!
