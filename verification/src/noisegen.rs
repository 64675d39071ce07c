//! Coherent-noise primitives: integer lattice hashing, value noise,
//! gradient noise with selectable interpolation quality, and the fold of
//! arbitrary coordinates into the 32-bit lattice range.

use vstd::prelude::*;
use crate::fp::repr::{
    fp_le_s, fp_lt_s, fp_neg_s, is_nan_s, sign_of, fp_le, fp_lt, fp_neg, is_nan, is_finite,
    EXP_UNIT, SIGN_MASK, POS_ZERO,
};
use vstd::arithmetic::power2::{
    pow2, lemma2_to64, lemma2_to64_rest, lemma_pow2_unfold, lemma_pow2_pos, lemma_pow2_adds,
    lemma_pow2_strictly_increases,
};
use crate::fp::arith::{fp_add_s, fp_div_s, fp_mul_s, fp_sub_s, fp_add, fp_div, fp_mul, fp_sub};
use crate::fp::intpart::{fp_from_i64_s, fp_mod_s, fp_trunc_int, fp_from_i64, fp_mod, ONE};
use crate::fp::poly::TWO;
use crate::util::{scurve3_s, scurve5_s, linear_interp_s, scurve3, scurve5, linear_interp};

verus! {

/// Quality of the coherent noise: the interpolation kernel applied to
/// the fractional offset inside the lattice cell.
#[derive(Clone, Copy, PartialEq, Eq, Structural, Debug)]
pub enum NoiseQuality {
    /// No smoothing of the fractional offset.
    Fast,
    /// Cubic S-curve smoothing.
    Standard,
    /// Quintic S-curve smoothing.
    Best,
}

/// The scalar `2^30`, the half-width of the lattice coordinate range.
pub const LATTICE_BOUND: u64 = 0x41D0000000000000;

/// The scalar `-2^30`.
pub const NEG_LATTICE_BOUND: u64 = 0xC1D0000000000000;

/// Lattice-hash multipliers.
pub const X_NOISE_GEN: u64 = 1619;

pub const Y_NOISE_GEN: u64 = 31337;

pub const Z_NOISE_GEN: u64 = 6971;

pub const SEED_NOISE_GEN: u64 = 1013;

/// An integer reduced modulo `2^32`, as 32-bit wrapping arithmetic sees it.
pub open spec fn wrap32(x: int) -> int {
    x % 0x1_0000_0000
}

fn wrap32_exec(x: i64) -> (r: u64)
    ensures
        r as int == wrap32(x as int),
{
    if x >= 0 {
        (x as u64) % 0x1_0000_0000
    } else {
        let pos: i64 = -(x + 1);
        let pm: u64 = (pos as u64) % 0x1_0000_0000;
        proof {
            let y = pos as int;
            vstd::arithmetic::div_mod::lemma_fundamental_div_mod(y, 0x1_0000_0000);
            vstd::arithmetic::div_mod::lemma_fundamental_div_mod_converse(
                x as int,
                0x1_0000_0000,
                -(y / 0x1_0000_0000) - 1,
                0xFFFF_FFFF - (y % 0x1_0000_0000),
            );
        }
        0xFFFF_FFFF - pm
    }
}

/// Pseudo-random hash of a lattice cell and seed, reduced to 31 bits.
///
/// Each step of the integer recurrence is reduced modulo `2^31`, which
/// projects 32-bit wrapping arithmetic onto the masked 31-bit result.
pub open spec fn hash31_s(x: int, y: int, z: int, seed: int) -> u64 {
    let n0 = (((X_NOISE_GEN as int) * wrap32(x) + (Y_NOISE_GEN as int) * wrap32(y) + (
    Z_NOISE_GEN as int) * wrap32(z) + (SEED_NOISE_GEN as int) * wrap32(seed)) % 0x8000_0000) as u64;
    let n = ((n0 / 0x2000) as u64) ^ n0;
    let a = (((n as int) * (n as int)) % 0x8000_0000) as u64;
    let b = (((a as int) * 60493) % 0x8000_0000) as u64;
    let c = (((b as int) + 19990303) % 0x8000_0000) as u64;
    let d = (((n as int) * (c as int)) % 0x8000_0000) as u64;
    ((((d as int) + 1376312589) % 0x8000_0000) as u64)
}

proof fn lemma_xor31(a: u64, b: u64)
    by (bit_vector)
    requires
        a < 0x8000_0000,
        b < 0x8000_0000,
    ensures
        (a ^ b) < 0x8000_0000,
{
}

fn hash31(x: i64, y: i64, z: i64, seed: i64) -> (r: u64)
    ensures
        r == hash31_s(x as int, y as int, z as int, seed as int),
        r < 0x8000_0000,
{
    let wx: u64 = wrap32_exec(x);
    let wy: u64 = wrap32_exec(y);
    let wz: u64 = wrap32_exec(z);
    let ws: u64 = wrap32_exec(seed);
    let n0: u64 = (X_NOISE_GEN * wx + Y_NOISE_GEN * wy + Z_NOISE_GEN * wz + SEED_NOISE_GEN * ws)
        % 0x8000_0000;
    proof {
        lemma_xor31(n0 / 0x2000, n0);
    }
    let n: u64 = (n0 / 0x2000) ^ n0;
    proof {
        assert(n * n < 0x4000_0000_0000_0000) by (nonlinear_arith)
            requires
                n < 0x8000_0000,
        {
        }
    }
    let a: u64 = (n * n) % 0x8000_0000;
    let b: u64 = (a * 60493) % 0x8000_0000;
    let c: u64 = (b + 19990303) % 0x8000_0000;
    proof {
        assert(n * c < 0x4000_0000_0000_0000) by (nonlinear_arith)
            requires
                n < 0x8000_0000,
                c < 0x8000_0000,
        {
        }
    }
    let d: u64 = (n * c) % 0x8000_0000;
    (d + 1376312589) % 0x8000_0000
}

/// An integer reduced into `[0, 2^31)`, as masking a wrapped 32-bit
/// value with the 31-bit mask sees it.
pub open spec fn mask31_s(x: int) -> int {
    x % 0x8000_0000
}

/// Reduces an integer into the non-negative 31-bit seed range.
pub fn mask31(x: i64) -> (r: i64)
    ensures
        r as int == mask31_s(x as int),
        0 <= r < 0x8000_0000,
{
    if x >= 0 {
        ((x as u64) % 0x8000_0000) as i64
    } else {
        let pos: i64 = -(x + 1);
        let pm: u64 = (pos as u64) % 0x8000_0000;
        proof {
            let y = pos as int;
            vstd::arithmetic::div_mod::lemma_fundamental_div_mod(y, 0x8000_0000);
            vstd::arithmetic::div_mod::lemma_fundamental_div_mod_converse(
                x as int,
                0x8000_0000,
                -(y / 0x8000_0000) - 1,
                0x7FFF_FFFF - (y % 0x8000_0000),
            );
        }
        (0x7FFF_FFFF - pm) as i64
    }
}

/// Value noise at a lattice cell: `1 - hash / 2^30`, in `(-1, 1]`.
pub open spec fn value_noise3d_s(x: int, y: int, z: int, seed: int) -> u64 {
    fp_sub_s(ONE, fp_div_s(fp_from_i64_s(hash31_s(x, y, z, seed) as int), LATTICE_BOUND))
}

/// Generates a value-noise scalar from the coordinates of a
/// three-dimensional lattice cell and an integer seed.
pub fn value_noise3d(x: i32, y: i32, z: i32, seed: i32) -> (r: u64)
    ensures
        r == value_noise3d_s(x as int, y as int, z as int, seed as int),
{
    value_noise3d_cell(x as i64, y as i64, z as i64, seed as i64)
}

/// Value noise over 64-bit cell coordinates, for neighbourhood walks
/// whose cells may step just past the 32-bit range.
pub fn value_noise3d_cell(x: i64, y: i64, z: i64, seed: i64) -> (r: u64)
    ensures
        r == value_noise3d_s(x as int, y as int, z as int, seed as int),
{
    let h: u64 = hash31(x, y, z, seed);
    fp_sub(ONE, fp_div(fp_from_i64(h as i64), LATTICE_BOUND))
}

/// Dot product of the cell's pseudo-random gradient with the offset
/// `(dx, dy, dz)` from the cell corner. The gradient is one of twelve
/// unit-lattice directions selected by the low bits of the cell hash,
/// so the result is zero whenever the offset is zero.
pub open spec fn grad_dot_s(h: u64, dx: u64, dy: u64, dz: u64) -> u64 {
    let u = if h < 8 {
        dx
    } else {
        dy
    };
    let v = if h < 4 {
        dy
    } else if h == 12 || h == 14 {
        dx
    } else {
        dz
    };
    fp_add_s(
        if h % 2 == 0 {
            u
        } else {
            fp_neg_s(u)
        },
        if (h / 2) % 2 == 0 {
            v
        } else {
            fp_neg_s(v)
        },
    )
}

/// Gradient noise of the point `(fx, fy, fz)` against the lattice cell
/// `(ix, iy, iz)` with the given seed.
pub open spec fn gradient_noise3d_s(
    fx: u64,
    fy: u64,
    fz: u64,
    ix: int,
    iy: int,
    iz: int,
    seed: int,
) -> u64 {
    let h = hash31_s(ix, iy, iz, seed) % 16;
    let dx = fp_sub_s(fx, fp_from_i64_s(ix));
    let dy = fp_sub_s(fy, fp_from_i64_s(iy));
    let dz = fp_sub_s(fz, fp_from_i64_s(iz));
    grad_dot_s(h, dx, dy, dz)
}

/// Generates a gradient-noise scalar from a point and the coordinates
/// of the lattice cell whose gradient is sampled.
pub fn gradient_noise3d(fx: u64, fy: u64, fz: u64, ix: i64, iy: i64, iz: i64, seed: i64) -> (r:
    u64)
    requires
        -0x5000_0000_0000_0000 <= ix <= 0x5000_0000_0000_0000,
        -0x5000_0000_0000_0000 <= iy <= 0x5000_0000_0000_0000,
        -0x5000_0000_0000_0000 <= iz <= 0x5000_0000_0000_0000,
    ensures
        r == gradient_noise3d_s(fx, fy, fz, ix as int, iy as int, iz as int, seed as int),
{
    let h: u64 = hash31(ix, iy, iz, seed) % 16;
    let dx: u64 = fp_sub(fx, fp_from_i64(ix));
    let dy: u64 = fp_sub(fy, fp_from_i64(iy));
    let dz: u64 = fp_sub(fz, fp_from_i64(iz));
    let u: u64 = if h < 8 {
        dx
    } else {
        dy
    };
    let v: u64 = if h < 4 {
        dy
    } else if h == 12 || h == 14 {
        dx
    } else {
        dz
    };
    fp_add(
        if h % 2 == 0 {
            u
        } else {
            fp_neg(u)
        },
        if (h / 2) % 2 == 0 {
            v
        } else {
            fp_neg(v)
        },
    )
}

/// The lattice cell index below a coordinate: the truncated value,
/// shifted down by one at or below zero, and held inside `[-2^62, 2^62]`
/// so a cell and its successor always exist.
pub open spec fn lattice_floor_s(a: u64) -> int {
    let t = if is_nan_s(a) {
        0
    } else if fp_trunc_int(a) < -0x4000_0000_0000_0000 {
        -0x4000_0000_0000_0000
    } else if fp_trunc_int(a) > 0x4000_0000_0000_0000 {
        0x4000_0000_0000_0000
    } else {
        fp_trunc_int(a)
    };
    if fp_lt_s(POS_ZERO, a) {
        t
    } else {
        t - 1
    }
}

fn lattice_floor(a: u64) -> (r: i64)
    ensures
        r as int == lattice_floor_s(a),
        -0x4000_0000_0000_0001 <= r <= 0x4000_0000_0000_0000,
{
    let t: i64 = lattice_trunc(a);
    if fp_lt(POS_ZERO, a) {
        t
    } else {
        t - 1
    }
}

/// A scalar with biased exponent at least 1085 truncates past the
/// lattice clamp bound on its sign's side.
proof fn lemma_trunc_big(a: u64)
    requires
        crate::fp::repr::exp_of(a) >= 1085,
    ensures
        sign_of(a) ==> fp_trunc_int(a) <= -0x4000_0000_0000_0000,
        !sign_of(a) ==> fp_trunc_int(a) >= 0x4000_0000_0000_0000,
{
    crate::fp::arith::lemma_mant_bounds(a);
    lemma2_to64();
    lemma2_to64_rest();
    let sc = crate::fp::arith::scale_of(a) as nat;
    assert(sc >= 10);
    assert(crate::fp::arith::mant_of(a) * pow2(sc) >= pow2(52) * pow2(10)) by {
        lemma_pow2_pos(sc);
        assert(pow2(10) <= pow2(sc)) by {
            if 10 < sc {
                lemma_pow2_strictly_increases(10, sc);
            }
        }
        vstd::arithmetic::mul::lemma_mul_inequality(
            pow2(10) as int,
            pow2(sc) as int,
            crate::fp::arith::mant_of(a) as int,
        );
        vstd::arithmetic::mul::lemma_mul_inequality(
            pow2(52) as int,
            crate::fp::arith::mant_of(a) as int,
            pow2(10) as int,
        );
        vstd::arithmetic::mul::lemma_mul_is_commutative(
            crate::fp::arith::mant_of(a) as int,
            pow2(sc) as int,
        );
        vstd::arithmetic::mul::lemma_mul_is_commutative(
            crate::fp::arith::mant_of(a) as int,
            pow2(10) as int,
        );
    }
    lemma_pow2_adds(52, 10);
    assert(pow2(62) == 0x4000000000000000);
}

/// Truncation of a scalar to an `i64` clamped into `[-2^62, 2^62]`;
/// NaN truncates to 0.
fn lattice_trunc(a: u64) -> (r: i64)
    ensures
        r as int == if is_nan_s(a) {
            0
        } else if fp_trunc_int(a) < -0x4000_0000_0000_0000 {
            -0x4000_0000_0000_0000int
        } else if fp_trunc_int(a) > 0x4000_0000_0000_0000 {
            0x4000_0000_0000_0000int
        } else {
            fp_trunc_int(a)
        },
{
    if is_nan(a) {
        return 0;
    }
    if !is_finite(a) {
        proof {
            lemma_trunc_big(a);
        }
        return if a >= SIGN_MASK {
            -0x4000_0000_0000_0000
        } else {
            0x4000_0000_0000_0000
        };
    }
    let s: bool = a >= SIGN_MASK;
    let mag: u64 = a % SIGN_MASK;
    let eb: u64 = mag / EXP_UNIT;
    if eb < 1023 {
        return 0;
    }
    proof {
        crate::fp::arith::lemma_mant_bounds(a);
        lemma2_to64();
        lemma2_to64_rest();
        lemma_pow2_unfold(53);
    }
    let m: u64 = (a % EXP_UNIT) + EXP_UNIT;
    if eb >= 1023 + 62 {
        // magnitude at least 2^62: clamp
        proof {
            lemma_trunc_big(a);
        }
        return if s {
            -0x4000_0000_0000_0000
        } else {
            0x4000_0000_0000_0000
        };
    }
    // 1023 <= eb <= 1084: |value| < 2^62
    if eb >= 1075 {
        // integral scale: value = m * 2^(eb - 1075)
        let sh: u64 = eb - 1075;
        proof {
            assert(sh <= 9);
            lemma_pow2_pos(sh as nat);
            assert(pow2(sh as nat) <= pow2(9)) by {
                if (sh as nat) < 9 {
                    lemma_pow2_strictly_increases(sh as nat, 9);
                }
            }
            assert((m as nat) * pow2(sh as nat) < pow2(53) * pow2(9)) by {
                vstd::arithmetic::mul::lemma_mul_strictly_positive(m as int, pow2(sh as nat) as int);
                vstd::arithmetic::mul::lemma_mul_upper_bound(
                    m as int,
                    (pow2(53) - 1) as int,
                    pow2(sh as nat) as int,
                    pow2(9) as int,
                );
            }
            lemma_pow2_adds(53, 9);
            assert(pow2(62) == 0x4000000000000000) by {
                lemma_pow2_adds(53, 9);
                lemma_pow2_adds(52, 10);
            }
        }
        let p: u64 = crate::fp::round::pow2_u128(sh as u32) as u64;
        let v: u64 = m * p;
        proof {
            assert((v as nat) < pow2(62));
        }
        if s {
            return -(v as i64);
        } else {
            return v as i64;
        }
    }
    let kk: u64 = 1075 - eb;
    proof {
        assert(1 <= kk <= 52);
        lemma_pow2_pos(kk as nat);
        assert(pow2(kk as nat) <= pow2(52)) by {
            if (kk as nat) < 52 {
                lemma_pow2_strictly_increases(kk as nat, 52);
            }
        }
        assert((m as nat) / pow2(kk as nat) <= m as nat) by {
            vstd::arithmetic::div_mod::lemma_div_nonincreasing(m as int, pow2(kk as nat) as int);
        }
        assert(pow2(62) == 0x4000000000000000) by {
            lemma_pow2_adds(52, 10);
            lemma2_to64();
            lemma2_to64_rest();
        }
        lemma_pow2_strictly_increases(53, 62);
    }
    let p: u64 = crate::fp::round::pow2_u128(kk as u32) as u64;
    let v: u64 = m / p;
    if s {
        -(v as i64)
    } else {
        v as i64
    }
}

/// Gradient-coherent noise: the eight corner gradients of the lattice
/// cell containing the point, blended along each axis with the kernel
/// selected by `quality`.
pub open spec fn gradient_coherent_noise3d_s(
    x: u64,
    y: u64,
    z: u64,
    seed: int,
    quality: NoiseQuality,
) -> u64 {
    let x0 = lattice_floor_s(x);
    let y0 = lattice_floor_s(y);
    let z0 = lattice_floor_s(z);
    let x1 = x0 + 1;
    let y1 = y0 + 1;
    let z1 = z0 + 1;
    let xs = curve_of(quality, fp_sub_s(x, fp_from_i64_s(x0)));
    let ys = curve_of(quality, fp_sub_s(y, fp_from_i64_s(y0)));
    let zs = curve_of(quality, fp_sub_s(z, fp_from_i64_s(z0)));
    let n000 = gradient_noise3d_s(x, y, z, x0, y0, z0, seed);
    let n100 = gradient_noise3d_s(x, y, z, x1, y0, z0, seed);
    let n010 = gradient_noise3d_s(x, y, z, x0, y1, z0, seed);
    let n110 = gradient_noise3d_s(x, y, z, x1, y1, z0, seed);
    let n001 = gradient_noise3d_s(x, y, z, x0, y0, z1, seed);
    let n101 = gradient_noise3d_s(x, y, z, x1, y0, z1, seed);
    let n011 = gradient_noise3d_s(x, y, z, x0, y1, z1, seed);
    let n111 = gradient_noise3d_s(x, y, z, x1, y1, z1, seed);
    let ix0 = linear_interp_s(n000, n100, xs);
    let ix1 = linear_interp_s(n010, n110, xs);
    let iy0 = linear_interp_s(ix0, ix1, ys);
    let ix2 = linear_interp_s(n001, n101, xs);
    let ix3 = linear_interp_s(n011, n111, xs);
    let iy1 = linear_interp_s(ix2, ix3, ys);
    linear_interp_s(iy0, iy1, zs)
}

/// The interpolation kernel of a quality level.
pub open spec fn curve_of(quality: NoiseQuality, a: u64) -> u64 {
    match quality {
        NoiseQuality::Fast => a,
        NoiseQuality::Standard => scurve3_s(a),
        NoiseQuality::Best => scurve5_s(a),
    }
}

/// Generates a gradient-coherent-noise scalar from a point, an integer
/// seed and a quality level.
pub fn gradient_coherent_noise3d(x: u64, y: u64, z: u64, seed: i64, quality: NoiseQuality) -> (r:
    u64)
    ensures
        r == gradient_coherent_noise3d_s(x, y, z, seed as int, quality),
{
    let x0: i64 = lattice_floor(x);
    let y0: i64 = lattice_floor(y);
    let z0: i64 = lattice_floor(z);
    let x1: i64 = x0 + 1;
    let y1: i64 = y0 + 1;
    let z1: i64 = z0 + 1;
    let xs: u64 = curve_exec(quality, fp_sub(x, fp_from_i64(x0)));
    let ys: u64 = curve_exec(quality, fp_sub(y, fp_from_i64(y0)));
    let zs: u64 = curve_exec(quality, fp_sub(z, fp_from_i64(z0)));
    let n000: u64 = gradient_noise3d(x, y, z, x0, y0, z0, seed);
    let n100: u64 = gradient_noise3d(x, y, z, x1, y0, z0, seed);
    let n010: u64 = gradient_noise3d(x, y, z, x0, y1, z0, seed);
    let n110: u64 = gradient_noise3d(x, y, z, x1, y1, z0, seed);
    let n001: u64 = gradient_noise3d(x, y, z, x0, y0, z1, seed);
    let n101: u64 = gradient_noise3d(x, y, z, x1, y0, z1, seed);
    let n011: u64 = gradient_noise3d(x, y, z, x0, y1, z1, seed);
    let n111: u64 = gradient_noise3d(x, y, z, x1, y1, z1, seed);
    let ix0: u64 = linear_interp(n000, n100, xs);
    let ix1: u64 = linear_interp(n010, n110, xs);
    let iy0: u64 = linear_interp(ix0, ix1, ys);
    let ix2: u64 = linear_interp(n001, n101, xs);
    let ix3: u64 = linear_interp(n011, n111, xs);
    let iy1: u64 = linear_interp(ix2, ix3, ys);
    linear_interp(iy0, iy1, zs)
}

fn curve_exec(quality: NoiseQuality, a: u64) -> (r: u64)
    ensures
        r == curve_of(quality, a),
{
    match quality {
        NoiseQuality::Fast => a,
        NoiseQuality::Standard => scurve3(a),
        NoiseQuality::Best => scurve5(a),
    }
}

/// Folds a scalar into the range representable by 32-bit lattice
/// coordinates: values of magnitude at least `2^30` are reflected back
/// in through an exact remainder; values already inside are unchanged.
pub open spec fn make_i32_range_s(n: u64) -> u64 {
    if fp_le_s(LATTICE_BOUND, n) {
        fp_sub_s(fp_mul_s(TWO, fp_mod_s(n, LATTICE_BOUND)), LATTICE_BOUND)
    } else if fp_le_s(n, NEG_LATTICE_BOUND) {
        fp_add_s(fp_mul_s(TWO, fp_mod_s(n, LATTICE_BOUND)), LATTICE_BOUND)
    } else {
        n
    }
}

/// Maps a scalar onto the range of coordinates the integer lattice can
/// index, so lattice lookups never leave the 32-bit range.
pub fn make_i32_range(n: u64) -> (r: u64)
    ensures
        r == make_i32_range_s(n),
{
    if fp_le(LATTICE_BOUND, n) {
        fp_sub(fp_mul(TWO, fp_mod(n, LATTICE_BOUND)), LATTICE_BOUND)
    } else if fp_le(n, NEG_LATTICE_BOUND) {
        fp_add(fp_mul(TWO, fp_mod(n, LATTICE_BOUND)), LATTICE_BOUND)
    } else {
        n
    }
}

/// A scalar already strictly inside the lattice range, or NaN, folds to
/// itself; folding is idempotent on every scalar whose fold lands
/// strictly inside the range. The fold is not idempotent at the exact
/// boundary: the two boundary values exchange places.
pub proof fn lemma_make_i32_range_fixed(n: u64)
    requires
        !fp_le_s(LATTICE_BOUND, n),
        !fp_le_s(n, NEG_LATTICE_BOUND),
    ensures
        make_i32_range_s(n) == n,
{
}

/// On a scalar already strictly inside the lattice range, folding twice
/// equals folding once outright.
pub proof fn lemma_make_i32_range_idempotent_in_range(n: u64)
    requires
        !fp_le_s(LATTICE_BOUND, n),
        !fp_le_s(n, NEG_LATTICE_BOUND),
    ensures
        make_i32_range_s(make_i32_range_s(n)) == make_i32_range_s(n),
{
}

/// Folding twice equals folding once, for every scalar whose first fold
/// is NaN or lands strictly inside the lattice range.
pub proof fn lemma_make_i32_range_idempotent(n: u64)
    requires
        !fp_le_s(LATTICE_BOUND, make_i32_range_s(n)),
        !fp_le_s(make_i32_range_s(n), NEG_LATTICE_BOUND),
    ensures
        make_i32_range_s(make_i32_range_s(n)) == make_i32_range_s(n),
{
}

} // verus!
