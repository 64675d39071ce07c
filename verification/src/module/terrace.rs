//! Noise module that maps the output of its source module onto a
//! terrace-forming curve.

use vstd::prelude::*;
use crate::module::Module;
use crate::fp::arith::{fp_add_s, fp_div_s, fp_mul_s, fp_sub_s, fp_add, fp_div, fp_mul, fp_sub};
use crate::fp::repr::{fp_eq_s, is_nan_s, is_nan};
use crate::fp::intpart::{fp_from_i32_s, fp_from_i32, NEG_ONE, ONE};
use crate::fp::poly::TWO;
use crate::spline::{
    clamp_index, count_le, count_lt, inputs_wf, lemma_count_le_bounds, lemma_count_le_split,
    lemma_count_le_step, lemma_count_lt_split, lemma_count_lt_step, lemma_insert_keeps_wf,
};
use crate::util::{clamp, linear_interp_s, linear_interp};

verus! {

/// A valid set of terrace control points: NaN-free, strictly ascending,
/// in numbers an index can count.
pub open spec fn terrace_points_wf(s: Seq<u64>) -> bool {
    &&& inputs_wf(s)
    &&& s.len() <= 0x7FFF_FFFF
}

/// Noise module that maps the output value from a source module onto a
/// terrace-forming curve: between two bracketing control points the
/// interpolation weight is squared, producing a flat-then-steep rise
/// that resembles terraces. At least two control points with pairwise
/// distinct values are required; sampling outside the control range
/// collapses to the nearest boundary point.
#[derive(Clone)]
pub struct Terrace<M: Module> {
    pub module: M,
    pub invert_terraces: bool,
    pub control_points: Vec<u64>,
}

/// The sequence of evenly spaced control points the terrace builder
/// produces: starting at -1, each point one rounded step above the
/// previous one.
pub open spec fn terrace_steps(step: u64, n: nat) -> Seq<u64>
    decreases n,
{
    if n == 0 {
        Seq::<u64>::empty()
    } else {
        let prev = terrace_steps(step, (n - 1) as nat);
        let cur = if n == 1 {
            NEG_ONE
        } else {
            fp_add_s(prev.last(), step)
        };
        prev.push(cur)
    }
}

impl<M: Module> Terrace<M> {
    /// Create a new `Terrace` noise module around the specified module,
    /// with no control points.
    pub fn new(module: M) -> (r: Terrace<M>)
        ensures
            r.module == module,
            r.invert_terraces == false,
            r.control_points@ =~= Seq::<u64>::empty(),
    {
        Terrace { module, invert_terraces: false, control_points: Vec::new() }
    }

    /// Returns a reference to the source module used.
    pub fn module(&self) -> (r: &M)
        ensures
            r == &self.module,
    {
        &self.module
    }

    /// Returns a mutable reference to the source module used.
    pub fn module_mut(&mut self) -> (r: &mut M)
        ensures
            *r == old(self).module,
            final(self).invert_terraces == old(self).invert_terraces,
            final(self).control_points == old(self).control_points,
    {
        &mut self.module
    }

    /// Returns whether the terrace profile between the control points is
    /// inverted.
    pub fn invert_terraces(&self) -> (r: bool)
        ensures
            r == self.invert_terraces,
    {
        self.invert_terraces
    }

    /// Returns a slice of all the control points, in ascending order.
    pub fn control_points(&self) -> (r: &[u64])
        ensures
            r@ == self.control_points@,
    {
        self.control_points.as_slice()
    }

    /// Set the source module to be used.
    pub fn set_module(&mut self, module: M)
        ensures
            final(self).module == module,
            final(self).invert_terraces == old(self).invert_terraces,
            final(self).control_points == old(self).control_points,
    {
        self.module = module;
    }

    /// Sets whether the terrace profile between the control points is
    /// inverted.
    pub fn set_invert_terraces(&mut self, invert: bool)
        ensures
            final(self).invert_terraces == invert,
            final(self).module == old(self).module,
            final(self).control_points == old(self).control_points,
    {
        self.invert_terraces = invert;
    }

    /// Adds a control point to the terrace-forming curve, keeping the
    /// points in ascending order; it does not matter in which order the
    /// points are added. The value may not be NaN and must not already
    /// be present.
    pub fn add_control_point(&mut self, value: u64)
        requires
            terrace_points_wf(old(self).control_points@),
            old(self).control_points@.len() < 0x7FFF_FFFF,
            !is_nan_s(value),
            forall|i: int|
                0 <= i < old(self).control_points@.len() ==> !fp_eq_s(
                    #[trigger] old(self).control_points@[i],
                    value,
                ),
        ensures
            final(self).control_points@ == old(self).control_points@.insert(
                count_lt(old(self).control_points@, value),
                value,
            ),
            terrace_points_wf(final(self).control_points@),
            final(self).module == old(self).module,
            final(self).invert_terraces == old(self).invert_terraces,
    {
        let ghost s0 = self.control_points@;
        proof {
            lemma_count_lt_split(s0, value);
        }
        let n: usize = self.control_points.len();
        let mut idx: usize = 0;
        let mut i: usize = 0;
        proof {
            assert(s0.take(0) =~= Seq::<u64>::empty());
        }
        while i < n
            invariant
                0 <= idx <= i <= n,
                n == s0.len() < 0x7FFF_FFFF,
                self.control_points@ == s0,
                idx == count_lt(s0.take(i as int), value),
            decreases n - i,
        {
            let lt: bool = crate::fp::repr::fp_lt(self.control_points[i], value);
            proof {
                lemma_count_lt_step(s0, value, i as int);
            }
            if lt {
                idx = idx + 1;
            }
            i = i + 1;
        }
        proof {
            assert(s0.take(n as int) =~= s0);
            lemma_insert_keeps_wf(s0, value);
        }
        self.control_points.insert(idx, value);
    }

    /// Replaces the control points with `count` evenly spaced points
    /// covering the range from -1 to +1. At least two points are
    /// required.
    pub fn make_control_points(&mut self, count: i32)
        requires
            count >= 2,
        ensures
            final(self).control_points@ == terrace_steps(
                fp_div_s(TWO, fp_sub_s(fp_from_i32_s(count), ONE)),
                count as nat,
            ),
            final(self).module == old(self).module,
            final(self).invert_terraces == old(self).invert_terraces,
    {
        self.control_points.clear();
        let terrace_step: u64 = fp_div(TWO, fp_sub(fp_from_i32(count), ONE));
        let mut cur_value: u64 = NEG_ONE;
        let mut i: i32 = 0;
        let ghost m0 = self.module;
        let ghost iv0 = self.invert_terraces;
        while i < count
            invariant
                0 <= i <= count,
                self.module == m0,
                self.invert_terraces == iv0,
                self.control_points@ == terrace_steps(terrace_step, i as nat),
                i > 0 ==> cur_value == fp_add_s(
                    terrace_steps(terrace_step, i as nat).last(),
                    terrace_step,
                ),
                i == 0 ==> cur_value == NEG_ONE,
            decreases count - i,
        {
            self.control_points.push(cur_value);
            proof {
                assert(self.control_points@ == terrace_steps(terrace_step, (i + 1) as nat));
            }
            cur_value = fp_add(cur_value, terrace_step);
            i = i + 1;
        }
    }
}

impl<M: Module> Module for Terrace<M> {
    open spec fn wf(&self) -> bool {
        &&& self.module.wf()
        &&& terrace_points_wf(self.control_points@)
        &&& self.control_points@.len() >= 2
    }

    open spec fn value_at(&self, x: u64, y: u64, z: u64) -> u64 {
        let s = self.control_points@;
        let source_value = self.module.value_at(x, y, z);
        let idx_pos = count_le(s, source_value);
        let last = s.len() - 1;
        let idx0 = clamp_index(idx_pos - 1, 0, last);
        let idx1 = clamp_index(idx_pos, 0, last);
        if idx0 == idx1 {
            s[idx1]
        } else {
            let value0 = s[idx0];
            let value1 = s[idx1];
            let alpha0 = fp_div_s(fp_sub_s(source_value, value0), fp_sub_s(value1, value0));
            if self.invert_terraces {
                let alpha1 = fp_sub_s(ONE, alpha0);
                let alpha = fp_mul_s(alpha1, alpha1);
                linear_interp_s(value1, value0, alpha)
            } else {
                let alpha = fp_mul_s(alpha0, alpha0);
                linear_interp_s(value0, value1, alpha)
            }
        }
    }

    fn get_value(&self, x: u64, y: u64, z: u64) -> (r: u64) {
        let source_value: u64 = self.module.get_value(x, y, z);
        let ghost s = self.control_points@;
        let n: usize = self.control_points.len();
        let mut cnt: usize = 0;
        let mut i: usize = 0;
        proof {
            assert(s.take(0) =~= Seq::<u64>::empty());
        }
        while i < n
            invariant
                0 <= cnt <= i <= n,
                n == s.len() <= 0x7FFF_FFFF,
                self.control_points@ == s,
                cnt == count_le(s.take(i as int), source_value),
            decreases n - i,
        {
            let le: bool = crate::fp::repr::fp_le(self.control_points[i], source_value);
            proof {
                lemma_count_le_step(s, source_value, i as int);
            }
            if le {
                cnt = cnt + 1;
            }
            i = i + 1;
        }
        proof {
            assert(s.take(n as int) =~= s);
            lemma_count_le_bounds(s, source_value);
        }
        let idx_pos: i64 = cnt as i64;
        let last: i64 = (n as i64) - 1;
        let idx0: usize = clamp(idx_pos - 1, 0, last) as usize;
        let idx1: usize = clamp(idx_pos, 0, last) as usize;
        if idx0 == idx1 {
            return self.control_points[idx1];
        }
        let value0: u64 = self.control_points[idx0];
        let value1: u64 = self.control_points[idx1];
        let alpha0: u64 = fp_div(fp_sub(source_value, value0), fp_sub(value1, value0));
        if self.invert_terraces {
            let alpha1: u64 = fp_sub(ONE, alpha0);
            let alpha: u64 = fp_mul(alpha1, alpha1);
            linear_interp(value1, value0, alpha)
        } else {
            let alpha: u64 = fp_mul(alpha0, alpha0);
            linear_interp(value0, value1, alpha)
        }
    }
}

/// Sampling a terrace below its smallest control point returns exactly
/// that boundary point.
pub proof fn lemma_terrace_below_range<M: Module>(t: Terrace<M>, x: u64, y: u64, z: u64)
    requires
        t.wf(),
        !is_nan_s(t.module.value_at(x, y, z)),
        crate::fp::repr::fp_lt_s(t.module.value_at(x, y, z), t.control_points@[0]),
    ensures
        t.value_at(x, y, z) == t.control_points@[0],
{
    let s = t.control_points@;
    let v = t.module.value_at(x, y, z);
    lemma_count_le_split(s, v);
    if count_le(s, v) > 0 {
        assert(crate::fp::repr::fp_le_s(s[0], v));
    }
    assert(count_le(s, v) == 0);
}

/// Sampling a terrace above its largest control point returns exactly
/// that boundary point.
pub proof fn lemma_terrace_above_range<M: Module>(t: Terrace<M>, x: u64, y: u64, z: u64)
    requires
        t.wf(),
        !is_nan_s(t.module.value_at(x, y, z)),
        crate::fp::repr::fp_lt_s(t.control_points@[t.control_points@.len() - 1], t.module.value_at(x, y, z)),
    ensures
        t.value_at(x, y, z) == t.control_points@[t.control_points@.len() - 1],
{
    let s = t.control_points@;
    let v = t.module.value_at(x, y, z);
    lemma_count_le_split(s, v);
    let cl = count_le(s, v);
    if cl < s.len() {
        assert(crate::fp::repr::fp_lt_s(v, s[cl]));
        if cl == s.len() - 1 {
        } else {
            assert(crate::fp::repr::fp_lt_s(s[cl], s[s.len() - 1]));
        }
        assert(false);
    }
}

} // verus!
