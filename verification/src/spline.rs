//! Ordered-search helpers shared by the spline-remapping modules: a
//! strictly ascending sequence of control inputs, and the insertion
//! position of a sampled value within it.

use vstd::prelude::*;
use crate::fp::repr::{fp_eq_s, fp_le_s, fp_lt_s, is_nan_s};

verus! {

/// A valid sequence of control inputs: free of NaN and strictly
/// ascending.
pub open spec fn inputs_wf(s: Seq<u64>) -> bool {
    &&& forall|i: int| 0 <= i < s.len() ==> !is_nan_s(#[trigger] s[i])
    &&& forall|i: int, j: int| 0 <= i < j < s.len() ==> fp_lt_s(#[trigger] s[i], #[trigger] s[j])
}

/// The number of inputs at most `v`: in a strictly ascending sequence,
/// the position after the matching input, or the insertion position of a
/// missing one.
pub open spec fn count_le(s: Seq<u64>, v: u64) -> int
    decreases s.len(),
{
    if s.len() == 0 {
        0
    } else {
        count_le(s.drop_last(), v) + if fp_le_s(s.last(), v) {
            1int
        } else {
            0int
        }
    }
}

/// The number of inputs strictly below `v`: in a strictly ascending
/// sequence, the insertion position that keeps it ascending.
pub open spec fn count_lt(s: Seq<u64>, v: u64) -> int
    decreases s.len(),
{
    if s.len() == 0 {
        0
    } else {
        count_lt(s.drop_last(), v) + if fp_lt_s(s.last(), v) {
            1int
        } else {
            0int
        }
    }
}

/// In a valid input sequence, everything before `count_le(s, v)` is at
/// most `v` and everything from it on is strictly above `v`.
pub proof fn lemma_count_le_split(s: Seq<u64>, v: u64)
    requires
        inputs_wf(s),
        !is_nan_s(v),
    ensures
        0 <= count_le(s, v) <= s.len(),
        forall|i: int| 0 <= i < count_le(s, v) ==> fp_le_s(#[trigger] s[i], v),
        forall|i: int| count_le(s, v) <= i < s.len() ==> fp_lt_s(v, #[trigger] s[i]),
    decreases s.len(),
{
    if s.len() > 0 {
        let sp = s.drop_last();
        assert(inputs_wf(sp)) by {
            assert(forall|i: int| 0 <= i < sp.len() ==> sp[i] == s[i]);
        }
        lemma_count_le_split(sp, v);
        let c = count_le(sp, v);
        if fp_le_s(s.last(), v) {
            // the last input is within reach, so every earlier one is too
            assert(c == sp.len()) by {
                if c < sp.len() {
                    assert(fp_lt_s(v, sp[c]));
                    assert(fp_lt_s(s[c], s[s.len() - 1]));
                    assert(false);
                }
            }
        } else {
            assert(fp_lt_s(v, s.last()));
            assert(forall|i: int| c <= i < s.len() ==> fp_lt_s(v, #[trigger] s[i])) by {
                assert(forall|i: int| c <= i < sp.len() ==> fp_lt_s(v, #[trigger] sp[i]));
                assert(forall|i: int| c <= i < s.len() - 1 ==> s[i] == sp[i]);
            }
        }
        assert(forall|i: int| 0 <= i < count_le(s, v) ==> fp_le_s(#[trigger] s[i], v)) by {
            assert(forall|i: int| 0 <= i < sp.len() ==> s[i] == sp[i]);
        }
    }
}

/// In a valid input sequence, everything before `count_lt(s, v)` is
/// strictly below `v` and everything from it on is at least `v`.
pub proof fn lemma_count_lt_split(s: Seq<u64>, v: u64)
    requires
        inputs_wf(s),
        !is_nan_s(v),
    ensures
        0 <= count_lt(s, v) <= s.len(),
        forall|i: int| 0 <= i < count_lt(s, v) ==> fp_lt_s(#[trigger] s[i], v),
        forall|i: int| count_lt(s, v) <= i < s.len() ==> fp_le_s(v, #[trigger] s[i]),
    decreases s.len(),
{
    if s.len() > 0 {
        let sp = s.drop_last();
        assert(inputs_wf(sp)) by {
            assert(forall|i: int| 0 <= i < sp.len() ==> sp[i] == s[i]);
        }
        lemma_count_lt_split(sp, v);
        let c = count_lt(sp, v);
        if fp_lt_s(s.last(), v) {
            assert(c == sp.len()) by {
                if c < sp.len() {
                    assert(fp_le_s(v, sp[c]));
                    assert(fp_lt_s(s[c], s[s.len() - 1]));
                    assert(false);
                }
            }
        } else {
            assert(fp_le_s(v, s.last()));
            assert(forall|i: int| c <= i < s.len() ==> fp_le_s(v, #[trigger] s[i])) by {
                assert(forall|i: int| c <= i < sp.len() ==> fp_le_s(v, #[trigger] sp[i]));
                assert(forall|i: int| c <= i < s.len() - 1 ==> s[i] == sp[i]);
            }
        }
        assert(forall|i: int| 0 <= i < count_lt(s, v) ==> fp_lt_s(#[trigger] s[i], v)) by {
            assert(forall|i: int| 0 <= i < sp.len() ==> s[i] == sp[i]);
        }
    }
}

/// Extending the counted prefix by one element extends the count by that
/// element's contribution.
pub proof fn lemma_count_le_step(s: Seq<u64>, v: u64, i: int)
    requires
        0 <= i < s.len(),
    ensures
        count_le(s.take(i + 1), v) == count_le(s.take(i), v) + if fp_le_s(s[i], v) {
            1int
        } else {
            0int
        },
{
    let t = s.take(i + 1);
    assert(t.drop_last() =~= s.take(i));
    assert(t.last() == s[i]);
}

/// Extending the counted prefix by one element extends the strict count
/// by that element's contribution.
pub proof fn lemma_count_lt_step(s: Seq<u64>, v: u64, i: int)
    requires
        0 <= i < s.len(),
    ensures
        count_lt(s.take(i + 1), v) == count_lt(s.take(i), v) + if fp_lt_s(s[i], v) {
            1int
        } else {
            0int
        },
{
    let t = s.take(i + 1);
    assert(t.drop_last() =~= s.take(i));
    assert(t.last() == s[i]);
}

/// Inserting a value that is absent from a valid input sequence at its
/// insertion position keeps the sequence valid.
pub proof fn lemma_insert_keeps_wf(s: Seq<u64>, v: u64)
    requires
        inputs_wf(s),
        !is_nan_s(v),
        forall|i: int| 0 <= i < s.len() ==> !fp_eq_s(#[trigger] s[i], v),
    ensures
        inputs_wf(s.insert(count_lt(s, v), v)),
{
    lemma_count_lt_split(s, v);
    let p = count_lt(s, v);
    let t = s.insert(p, v);
    assert(forall|i: int| p <= i < s.len() ==> fp_lt_s(v, #[trigger] s[i]));
    assert forall|i: int, j: int| 0 <= i < j < t.len() implies fp_lt_s(#[trigger] t[i], #[trigger] t[j]) by {
        if i < p {
            assert(t[i] == s[i]);
        }
        if j < p {
            assert(t[j] == s[j]);
        }
        if i > p {
            assert(t[i] == s[i - 1]);
        }
        if j > p {
            assert(t[j] == s[j - 1]);
        }
    }
    assert(forall|i: int| 0 <= i < t.len() ==> !is_nan_s(#[trigger] t[i])) by {
        assert(forall|i: int| 0 <= i < t.len() ==> t[i] == v || (0 <= i - 1 < s.len() && t[i] == s[i
            - 1]) || (0 <= i < s.len() && t[i] == s[i]));
    }
}

/// The counts are bounded by the sequence length, for every value.
pub proof fn lemma_count_le_bounds(s: Seq<u64>, v: u64)
    ensures
        0 <= count_le(s, v) <= s.len(),
    decreases s.len(),
{
    if s.len() > 0 {
        lemma_count_le_bounds(s.drop_last(), v);
    }
}

/// Clamping of a signed index to an inclusive range.
pub open spec fn clamp_index(v: int, lo: int, hi: int) -> int {
    if v < lo {
        lo
    } else if v > hi {
        hi
    } else {
        v
    }
}

} // verus!
