//! Normalisation and round-to-nearest-even packing of binary64 results.
//!
//! Every rounded operation first produces an exact (or sticky-compressed)
//! magnitude `m` at a power-of-two scale `2^q` and then hands it to
//! `round_pack`, which normalises, rounds to nearest-even and encodes the
//! result, handling overflow to infinity and underflow to subnormals.

use vstd::prelude::*;
use vstd::arithmetic::power2::{
    pow2, lemma_pow2_adds, lemma_pow2_pos, lemma_pow2_strictly_increases, lemma_pow2_unfold,
    lemma2_to64, lemma2_to64_rest,
};
use crate::fp::repr::{zero_bits, inf_bits, SIGN_MASK, EXP_UNIT, NEG_ZERO, POS_ZERO, NEG_INF, POS_INF};

verus! {

/// Number of binary digits of `m`: 0 for 0, otherwise the unique `l`
/// with `pow2(l - 1) <= m < pow2(l)`.
pub open spec fn bit_len(m: nat) -> nat
    decreases m,
{
    if m == 0 {
        0
    } else {
        1 + bit_len(m / 2)
    }
}

pub proof fn lemma_bit_len_bounds(m: nat)
    requires
        m > 0,
    ensures
        bit_len(m) >= 1,
        pow2((bit_len(m) - 1) as nat) <= m < pow2(bit_len(m)),
    decreases m,
{
    if m / 2 == 0 {
        lemma2_to64();
        assert(bit_len(0) == 0);
        assert(m == 1);
        assert(bit_len(1nat) == 1);
    } else {
        lemma_bit_len_bounds(m / 2);
        lemma_pow2_unfold(bit_len(m));
        lemma_pow2_unfold((bit_len(m) - 1) as nat);
        assert(m >= 2 * (m / 2));
        assert(m <= 2 * (m / 2) + 1);
    }
}

pub proof fn lemma_bit_len_le(m: nat, k: nat)
    requires
        m < pow2(k),
    ensures
        bit_len(m) <= k,
{
    if m > 0 {
        lemma_bit_len_bounds(m);
        if bit_len(m) > k {
            lemma_pow2_strictly_increases(k, (bit_len(m) - 1) as nat);
            if k < (bit_len(m) - 1) as nat {
            } else {
                assert(k == (bit_len(m) - 1) as nat);
            }
            assert(pow2(k) <= pow2((bit_len(m) - 1) as nat));
            assert(false);
        }
    }
}

/// `bit_len` is characterised by its bounds.
pub proof fn lemma_bit_len_unique(m: nat, l: nat)
    requires
        l >= 1,
        pow2((l - 1) as nat) <= m,
        m < pow2(l),
    ensures
        bit_len(m) == l,
{
    lemma_pow2_pos((l - 1) as nat);
    lemma_bit_len_bounds(m);
    lemma_bit_len_le(m, l);
    if bit_len(m) < l {
        lemma_pow2_strictly_increases(bit_len(m), (l - 1) as nat);
        if bit_len(m) < (l - 1) as nat {
        } else {
            assert(bit_len(m) == (l - 1) as nat);
        }
        assert(pow2((l - 1) as nat) <= m);
        assert(m < pow2(bit_len(m)));
        assert(false);
    }
}

pub fn bit_len_u128(m: u128) -> (r: u32)
    ensures
        r as nat == bit_len(m as nat),
        r <= 128,
{
    proof {
        lemma_pow2_adds(64, 64);
        lemma2_to64();
        lemma2_to64_rest();
        lemma_bit_len_le(m as nat, 128);
    }
    let mut x: u128 = m;
    let mut c: u32 = 0;
    while x > 0
        invariant
            c + bit_len(x as nat) == bit_len(m as nat),
            bit_len(m as nat) <= 128,
        decreases x,
    {
        x = x / 2;
        c = c + 1;
    }
    c
}

pub fn pow2_u128(k: u32) -> (r: u128)
    requires
        k <= 127,
    ensures
        r as nat == pow2(k as nat),
{
    let mut r: u128 = 1;
    let mut i: u32 = 0;
    proof {
        lemma2_to64();
    }
    while i < k
        invariant
            i <= k,
            k <= 127,
            r as nat == pow2(i as nat),
        decreases k - i,
    {
        proof {
            lemma_pow2_unfold((i + 1) as nat);
            if ((i + 1) as nat) < 128 {
                lemma_pow2_strictly_increases((i + 1) as nat, 128);
            }
            lemma_pow2_adds(64, 64);
            lemma2_to64();
            lemma2_to64_rest();
            assert(pow2(128) == 0x100000000000000000000000000000000);
        }
        r = r * 2;
        i = i + 1;
    }
    r
}

/// `m / 2^k`, rounded to nearest with ties to even.
pub open spec fn rne_shift(m: nat, k: nat) -> nat {
    let p = pow2(k);
    let q = m / p;
    let r = m % p;
    if 2 * r > p || (2 * r == p && q % 2 == 1) {
        q + 1
    } else {
        q
    }
}

pub proof fn lemma_rne_shift_bound(m: nat, k: nat, l: nat)
    requires
        m < pow2(k + l),
    ensures
        rne_shift(m, k) <= pow2(l),
{
    lemma_pow2_pos(k);
    lemma_pow2_pos(l);
    lemma_pow2_adds(k, l);
    assert(m / pow2(k) < pow2(l)) by {
        vstd::arithmetic::div_mod::lemma_multiply_divide_lt(m as int, pow2(k) as int, pow2(l) as int);
    }
}

pub fn rne_shift_u128(m: u128, k: u32) -> (r: u128)
    requires
        k <= 127,
    ensures
        r as nat == rne_shift(m as nat, k as nat),
{
    let p: u128 = pow2_u128(k);
    proof {
        lemma_pow2_pos(k as nat);
        if (k as nat) < 127 {
            lemma_pow2_strictly_increases(k as nat, 127);
        }
        lemma_pow2_adds(64, 63);
        lemma2_to64();
        lemma2_to64_rest();
        assert(pow2(127) == 0x80000000000000000000000000000000);
    }
    let q: u128 = m / p;
    let r: u128 = m % p;
    if 2 * r > p || (2 * r == p && q % 2 == 1) {
        proof {
            assert(q < 0xffffffffffffffffffffffffffffffff) by {
                if r == 0 {
                    assert(2 * r <= p);
                    assert(q % 2 == 1);
                    assert(m == p * q + r) by {
                        vstd::arithmetic::div_mod::lemma_fundamental_div_mod(m as int, p as int);
                    }
                    assert(p >= 2) by {
                        if k == 0 {
                            assert(p == 1);
                            assert(2 * r != p);
                        }
                        assert(k >= 1);
                        lemma_pow2_strictly_increases(0, k as nat);
                        lemma2_to64();
                    }
                } else {
                    assert(q <= m / p);
                    assert(m / p < m || m < 2) by {
                        if p >= 2 && m >= 2 {
                            vstd::arithmetic::div_mod::lemma_div_decreases(m as int, p as int);
                        }
                        if p == 1 {
                            assert(m % p == 0);
                        }
                    }
                }
            }
        }
        q + 1
    } else {
        q
    }
}

/// Encoding of a normal number from its biased exponent and full
/// 53-bit significand.
pub open spec fn pack_normal(s: bool, eb: int, mm: nat) -> u64 {
    (((if s {
        SIGN_MASK as int
    } else {
        0
    }) + eb * (EXP_UNIT as int) + (mm - pow2(52))) as u64)
}

/// Encoding of a subnormal number from its 52-bit fraction.
pub open spec fn pack_sub(s: bool, fr: nat) -> u64 {
    (((if s {
        SIGN_MASK as int
    } else {
        0
    }) + fr) as u64)
}

/// Round-to-nearest-even encoding of `(-1)^s * m * 2^q`.
pub open spec fn round_pack_s(s: bool, q: int, m: nat) -> u64 {
    if m == 0 {
        zero_bits(s)
    } else {
        let l = bit_len(m) as int;
        let e = l - 1 + q;
        if e >= 1024 {
            inf_bits(s)
        } else if e < -1075 {
            zero_bits(s)
        } else if e == -1075 {
            if m == pow2((l - 1) as nat) {
                zero_bits(s)
            } else {
                pack_sub(s, 1)
            }
        } else if e >= -1022 {
            let mm = if l >= 53 {
                rne_shift(m, (l - 53) as nat)
            } else {
                m * pow2((53 - l) as nat)
            };
            if mm == pow2(53) {
                if e + 1 >= 1024 {
                    inf_bits(s)
                } else {
                    pack_normal(s, e + 1 + 1023, pow2(52))
                }
            } else {
                pack_normal(s, e + 1023, mm)
            }
        } else {
            if q >= -1074 {
                pack_sub(s, m * pow2((q + 1074) as nat))
            } else {
                let fr = rne_shift(m, (-1074 - q) as nat);
                if fr == pow2(52) {
                    pack_normal(s, 1, pow2(52))
                } else {
                    pack_sub(s, fr)
                }
            }
        }
    }
}

fn pack_normal_exec(s: bool, eb: u64, mm: u64) -> (r: u64)
    requires
        1 <= eb <= 0x7fe,
        pow2(52) <= mm < pow2(53),
    ensures
        r == pack_normal(s, eb as int, mm as nat),
{
    proof {
        lemma2_to64_rest();
    }
    (if s {
        SIGN_MASK
    } else {
        0
    }) + eb * EXP_UNIT + (mm - 0x10_0000_0000_0000)
}

fn pack_sub_exec(s: bool, fr: u64) -> (r: u64)
    requires
        fr < pow2(52),
    ensures
        r == pack_sub(s, fr as nat),
{
    proof {
        lemma2_to64_rest();
    }
    (if s {
        SIGN_MASK
    } else {
        0
    }) + fr
}

pub fn round_pack(s: bool, q: i32, m: u128) -> (r: u64)
    requires
        -100000 <= q <= 100000,
    ensures
        r == round_pack_s(s, q as int, m as nat),
{
    if m == 0 {
        return if s {
            NEG_ZERO
        } else {
            POS_ZERO
        };
    }
    let l: u32 = bit_len_u128(m);
    proof {
        lemma_bit_len_bounds(m as nat);
    }
    let e: i32 = l as i32 - 1 + q;
    if e >= 1024 {
        return if s {
            NEG_INF
        } else {
            POS_INF
        };
    }
    if e < -1075 {
        return if s {
            NEG_ZERO
        } else {
            POS_ZERO
        };
    }
    if e == -1075 {
        let p: u128 = pow2_u128(l - 1);
        if m == p {
            return if s {
                NEG_ZERO
            } else {
                POS_ZERO
            };
        } else {
            proof {
                lemma2_to64_rest();
                lemma_pow2_pos(52);
            }
            return pack_sub_exec(s, 1);
        }
    }
    if e >= -1022 {
        let mm: u128 = if l >= 53 {
            rne_shift_u128(m, l - 53)
        } else {
            proof {
                lemma_pow2_adds((l as nat), (53 - l as nat) as nat);
                assert((m as nat) * pow2((53 - l as nat) as nat) < pow2(l as nat) * pow2((53
                    - l as nat) as nat)) by {
                    lemma_pow2_pos((53 - l as nat) as nat);
                    vstd::arithmetic::mul::lemma_mul_strict_inequality(
                        m as int,
                        pow2(l as nat) as int,
                        pow2((53 - l as nat) as nat) as int,
                    );
                }
                lemma_pow2_strictly_increases(53, 128);
                lemma_pow2_adds(64, 64);
                lemma2_to64();
                lemma2_to64_rest();
            }
            m * pow2_u128(53 - l)
        };
        proof {
            if l >= 53 {
                lemma_rne_shift_bound(m as nat, (l - 53) as nat, 53);
            }
            lemma2_to64_rest();
            assert(pow2(53) == 0x20_0000_0000_0000) by {
                lemma_pow2_unfold(53);
                lemma2_to64_rest();
            }
        }
        if mm == 0x20_0000_0000_0000 {
            if e + 1 >= 1024 {
                if s {
                    NEG_INF
                } else {
                    POS_INF
                }
            } else {
                proof {
                    lemma_pow2_strictly_increases(52, 53);
                }
                pack_normal_exec(s, (e + 1 + 1023) as u64, 0x10_0000_0000_0000)
            }
        } else {
            proof {
                assert(pow2(52) <= mm as nat) by {
                    if l >= 53 {
                        // rounding m >= 2^(l-1) down by l-53 bits keeps at least 2^52
                        assert(rne_shift(m as nat, (l - 53) as nat) >= (m as nat) / pow2(
                            (l - 53) as nat,
                        ));
                        assert((m as nat) / pow2((l - 53) as nat) >= pow2(52)) by {
                            lemma_pow2_pos((l - 53) as nat);
                            vstd::arithmetic::div_mod::lemma_div_is_ordered(
                                pow2((l - 1) as nat) as int,
                                m as int,
                                pow2((l - 53) as nat) as int,
                            );
                            vstd::arithmetic::power2::lemma_pow2_subtracts(
                                (l - 53) as nat,
                                (l - 1) as nat,
                            );
                        }
                    } else {
                        assert((m as nat) * pow2((53 - l as nat) as nat) >= pow2(
                            (l - 1) as nat,
                        ) * pow2((53 - l as nat) as nat)) by {
                            lemma_pow2_pos((53 - l as nat) as nat);
                            vstd::arithmetic::mul::lemma_mul_inequality(
                                pow2((l - 1) as nat) as int,
                                m as int,
                                pow2((53 - l as nat) as nat) as int,
                            );
                        }
                        lemma_pow2_adds((l - 1) as nat, (53 - l as nat) as nat);
                    }
                }
            }
            pack_normal_exec(s, (e + 1023) as u64, mm as u64)
        }
    } else {
        if q >= -1074 {
            let p2: u128 = pow2_u128((q + 1074) as u32);
            proof {
                assert((m as nat) * pow2((q + 1074) as nat) < pow2((l as nat + q + 1074) as nat))
                    by {
                    lemma_pow2_pos((q + 1074) as nat);
                    vstd::arithmetic::mul::lemma_mul_strict_inequality(
                        m as int,
                        pow2(l as nat) as int,
                        pow2((q + 1074) as nat) as int,
                    );
                    lemma_pow2_adds(l as nat, (q + 1074) as nat);
                }
                assert((l as nat + q + 1074) as nat <= 52);
                if ((l as nat + q + 1074) as nat) < 52 {
                    lemma_pow2_strictly_increases((l as nat + q + 1074) as nat, 52);
                }
                lemma2_to64_rest();
                assert(pow2(52) == 0x10000000000000);
            }
            let fr: u128 = m * p2;
            pack_sub_exec(s, fr as u64)
        } else {
            let k: u32 = ((-1074) - q) as u32;
            proof {
                assert(k <= l - 1);
            }
            let fr: u128 = rne_shift_u128(m, k);
            proof {
                assert((m as nat) < pow2(k as nat + 53)) by {
                    if (l as nat) < k as nat + 53 {
                        lemma_pow2_strictly_increases(l as nat, k as nat + 53);
                    }
                }
                lemma_rne_shift_bound(m as nat, k as nat, 53);
                lemma2_to64_rest();
                assert(fr as nat <= pow2(53));
                assert(pow2(53) == 0x20_0000_0000_0000) by {
                    lemma_pow2_unfold(53);
                    lemma2_to64_rest();
                }
            }
            if fr == 0x10_0000_0000_0000 {
                proof {
                    lemma_pow2_strictly_increases(52, 53);
                }
                pack_normal_exec(s, 1, 0x10_0000_0000_0000)
            } else {
                proof {
                    // fr would be the boundary case at exactly 2^52, so
                    // here fr stays below the subnormal fraction limit.
                    let ql = (m as nat) / pow2(k as nat);
                    assert(l as nat <= k as nat + 52);
                    assert((m as nat) < pow2(k as nat + 52)) by {
                        if (l as nat) < k as nat + 52 {
                            lemma_pow2_strictly_increases(l as nat, k as nat + 52);
                        }
                    }
                    lemma_pow2_pos(k as nat);
                    lemma_pow2_adds(k as nat, 52);
                    assert(ql < pow2(52)) by {
                        vstd::arithmetic::div_mod::lemma_multiply_divide_lt(
                            m as int,
                            pow2(k as nat) as int,
                            pow2(52) as int,
                        );
                    }
                    assert(rne_shift(m as nat, k as nat) == ql || rne_shift(m as nat, k as nat)
                        == ql + 1);
                    assert(rne_shift(m as nat, k as nat) <= pow2(52));
                }
                pack_sub_exec(s, fr as u64)
            }
        }
    }
}

} // verus!

