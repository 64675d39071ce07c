//! Representation of IEEE 754 binary64 scalars as raw `u64` bit patterns:
//! field extraction, classification, sign operations and ordering.

use vstd::prelude::*;

verus! {

/// Bit weight of the sign bit.
pub const SIGN_MASK: u64 = 0x8000_0000_0000_0000;
/// Bit weight of one unit of the biased exponent field.
pub const EXP_UNIT: u64 = 0x10_0000_0000_0000;
/// Largest biased exponent value, reserved for infinities and NaNs.
pub const EXP_SPECIAL: u64 = 0x7FF;
/// The canonical quiet NaN produced by every operation that yields a NaN.
pub const QNAN: u64 = 0x7FF8_0000_0000_0000;
/// Positive infinity.
pub const POS_INF: u64 = 0x7FF0_0000_0000_0000;
/// Negative infinity.
pub const NEG_INF: u64 = 0xFFF0_0000_0000_0000;
/// Positive zero.
pub const POS_ZERO: u64 = 0x0000_0000_0000_0000;
/// Negative zero.
pub const NEG_ZERO: u64 = 0x8000_0000_0000_0000;

/// Sign bit of a scalar.
pub open spec fn sign_of(a: u64) -> bool {
    a / SIGN_MASK == 1
}

/// Magnitude: the bit pattern with the sign bit cleared.
pub open spec fn mag_of(a: u64) -> u64 {
    a % SIGN_MASK
}

/// Biased exponent field (11 bits).
pub open spec fn exp_of(a: u64) -> u64 {
    mag_of(a) / EXP_UNIT
}

/// Fraction field (52 bits).
pub open spec fn frac_of(a: u64) -> u64 {
    a % EXP_UNIT
}

pub open spec fn is_nan_s(a: u64) -> bool {
    exp_of(a) == EXP_SPECIAL && frac_of(a) != 0
}

pub open spec fn is_inf_s(a: u64) -> bool {
    exp_of(a) == EXP_SPECIAL && frac_of(a) == 0
}

pub open spec fn is_finite_s(a: u64) -> bool {
    exp_of(a) != EXP_SPECIAL
}

pub open spec fn is_zero_s(a: u64) -> bool {
    mag_of(a) == 0
}

/// Zero of the given sign.
pub open spec fn zero_bits(sign: bool) -> u64 {
    if sign {
        NEG_ZERO
    } else {
        POS_ZERO
    }
}

/// Infinity of the given sign.
pub open spec fn inf_bits(sign: bool) -> u64 {
    if sign {
        NEG_INF
    } else {
        POS_INF
    }
}

/// The bit pattern with the opposite sign bit.
pub open spec fn fp_neg_s(a: u64) -> u64 {
    if sign_of(a) {
        (a - SIGN_MASK) as u64
    } else {
        (a + SIGN_MASK) as u64
    }
}

/// The bit pattern with the sign bit cleared.
pub open spec fn fp_abs_s(a: u64) -> u64 {
    mag_of(a)
}

/// Total-order key of a non-NaN scalar: negative patterns map below
/// positive ones, both zeros map to 0, and within one sign the key is
/// monotone in the represented value.
pub open spec fn fp_key(a: u64) -> int {
    if sign_of(a) {
        -(mag_of(a) as int)
    } else {
        mag_of(a) as int
    }
}

/// IEEE `<`: false whenever either operand is NaN.
pub open spec fn fp_lt_s(a: u64, b: u64) -> bool {
    &&& !is_nan_s(a)
    &&& !is_nan_s(b)
    &&& fp_key(a) < fp_key(b)
}

/// IEEE `<=`: false whenever either operand is NaN.
pub open spec fn fp_le_s(a: u64, b: u64) -> bool {
    &&& !is_nan_s(a)
    &&& !is_nan_s(b)
    &&& fp_key(a) <= fp_key(b)
}

/// IEEE `==`: false whenever either operand is NaN; the two zeros are equal.
pub open spec fn fp_eq_s(a: u64, b: u64) -> bool {
    &&& !is_nan_s(a)
    &&& !is_nan_s(b)
    &&& fp_key(a) == fp_key(b)
}

pub fn is_nan(a: u64) -> (r: bool)
    ensures
        r == is_nan_s(a),
{
    let mag: u64 = a % SIGN_MASK;
    mag / EXP_UNIT == EXP_SPECIAL && a % EXP_UNIT != 0
}

pub fn is_finite(a: u64) -> (r: bool)
    ensures
        r == is_finite_s(a),
{
    (a % SIGN_MASK) / EXP_UNIT != EXP_SPECIAL
}

/// Flips the sign bit; negation of every scalar, NaN included.
pub fn fp_neg(a: u64) -> (r: u64)
    ensures
        r == fp_neg_s(a),
{
    if a >= SIGN_MASK {
        a - SIGN_MASK
    } else {
        a + SIGN_MASK
    }
}

/// Clears the sign bit; absolute value of every scalar, NaN included.
pub fn fp_abs(a: u64) -> (r: u64)
    ensures
        r == fp_abs_s(a),
{
    a % SIGN_MASK
}

proof fn lemma_sign_cases(a: u64)
    ensures
        sign_of(a) <==> a >= SIGN_MASK,
        mag_of(a) == if a >= SIGN_MASK {
            (a - SIGN_MASK) as u64
        } else {
            a
        },
{
}

/// The signed comparison key, as a machine integer.
fn key_exec(a: u64) -> (r: i64)
    ensures
        r as int == fp_key(a),
{
    let mag: u64 = a % SIGN_MASK;
    if a >= SIGN_MASK {
        proof {
            lemma_sign_cases(a);
        }
        -(mag as i64)
    } else {
        mag as i64
    }
}

pub fn fp_lt(a: u64, b: u64) -> (r: bool)
    ensures
        r == fp_lt_s(a, b),
{
    !is_nan(a) && !is_nan(b) && key_exec(a) < key_exec(b)
}

pub fn fp_le(a: u64, b: u64) -> (r: bool)
    ensures
        r == fp_le_s(a, b),
{
    !is_nan(a) && !is_nan(b) && key_exec(a) <= key_exec(b)
}

pub fn fp_gt(a: u64, b: u64) -> (r: bool)
    ensures
        r == fp_lt_s(b, a),
{
    fp_lt(b, a)
}

pub fn fp_eq(a: u64, b: u64) -> (r: bool)
    ensures
        r == fp_eq_s(a, b),
{
    !is_nan(a) && !is_nan(b) && key_exec(a) == key_exec(b)
}

/// The smaller of two scalars; if one is NaN, the other is returned.
pub open spec fn fp_min_s(a: u64, b: u64) -> u64 {
    if is_nan_s(a) {
        b
    } else if is_nan_s(b) {
        a
    } else if fp_lt_s(b, a) {
        b
    } else {
        a
    }
}

/// The larger of two scalars; if one is NaN, the other is returned.
pub open spec fn fp_max_s(a: u64, b: u64) -> u64 {
    if is_nan_s(a) {
        b
    } else if is_nan_s(b) {
        a
    } else if fp_lt_s(a, b) {
        b
    } else {
        a
    }
}

pub fn fp_min(a: u64, b: u64) -> (r: u64)
    ensures
        r == fp_min_s(a, b),
{
    if is_nan(a) {
        b
    } else if is_nan(b) {
        a
    } else if fp_lt(b, a) {
        b
    } else {
        a
    }
}

pub fn fp_max(a: u64, b: u64) -> (r: u64)
    ensures
        r == fp_max_s(a, b),
{
    if is_nan(a) {
        b
    } else if is_nan(b) {
        a
    } else if fp_lt(a, b) {
        b
    } else {
        a
    }
}

/// On non-NaN operands the minimum is one of them and is at most both.
pub proof fn lemma_min_picks(a: u64, b: u64)
    requires
        !is_nan_s(a),
        !is_nan_s(b),
    ensures
        fp_min_s(a, b) == a || fp_min_s(a, b) == b,
        fp_le_s(fp_min_s(a, b), a),
        fp_le_s(fp_min_s(a, b), b),
{
}

/// On non-NaN operands the maximum is one of them and is at least both.
pub proof fn lemma_max_picks(a: u64, b: u64)
    requires
        !is_nan_s(a),
        !is_nan_s(b),
    ensures
        fp_max_s(a, b) == a || fp_max_s(a, b) == b,
        fp_le_s(a, fp_max_s(a, b)),
        fp_le_s(b, fp_max_s(a, b)),
{
}

/// Negation is an involution on every bit pattern.
pub proof fn lemma_neg_involutive(a: u64)
    ensures
        fp_neg_s(fp_neg_s(a)) == a,
{
}

} // verus!
