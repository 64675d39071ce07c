//! Noise module that maps the output of its source module onto an
//! arbitrary cubic-spline curve.

use vstd::prelude::*;
use crate::module::Module;
use crate::fp::arith::{fp_div_s, fp_sub_s, fp_div, fp_sub};
use crate::fp::repr::{fp_eq_s, fp_le_s, is_nan_s, fp_le};
use crate::spline::{
    clamp_index, count_le, count_lt, inputs_wf, lemma_count_le_split, lemma_count_le_step,
    lemma_count_lt_split, lemma_insert_keeps_wf,
};
use crate::util::{clamp, cubic_interp_s, cubic_interp};

verus! {

/// This structure defines a control point: an input value that maps to
/// an output value. Control points are used for defining splines.
#[derive(Clone, Copy)]
pub struct ControlPoint {
    pub input_value: u64,
    pub output_value: u64,
}

/// The inputs of a sequence of control points, in order.
pub open spec fn inputs_of(s: Seq<ControlPoint>) -> Seq<u64> {
    s.map_values(|p: ControlPoint| p.input_value)
}

/// A valid set of control points: NaN-free outputs and strictly
/// ascending, NaN-free inputs, in numbers an index can count.
pub open spec fn points_wf(s: Seq<ControlPoint>) -> bool {
    &&& inputs_wf(inputs_of(s))
    &&& forall|i: int| 0 <= i < s.len() ==> !is_nan_s(#[trigger] s[i].output_value)
    &&& s.len() <= 0x7FFF_FFFF
}

/// Noise module that maps the output value from a source module onto an
/// arbitrary function curve, defined by at least four control points
/// with pairwise distinct input values. Sampling below the smallest or
/// above the largest input value returns that boundary point's output
/// value; in between, four neighbouring points are interpolated with a
/// cubic spline.
#[derive(Clone)]
pub struct Curve<M: Module> {
    pub module: M,
    pub control_points: Vec<ControlPoint>,
}

impl<M: Module> Curve<M> {
    /// Create a new `Curve` noise module around the specified module,
    /// with no control points.
    pub fn new(module: M) -> (r: Curve<M>)
        ensures
            r.module == module,
            r.control_points@ =~= Seq::<ControlPoint>::empty(),
    {
        Curve { module, control_points: Vec::new() }
    }

    /// Returns a reference to the source module used.
    pub fn module(&self) -> (r: &M)
        ensures
            r == &self.module,
    {
        &self.module
    }

    /// Returns a mutable reference to the source module used.
    pub fn module_mut(&mut self) -> (r: &mut M)
        ensures
            *r == old(self).module,
            final(self).control_points == old(self).control_points,
    {
        &mut self.module
    }

    /// Set the source module to be used.
    pub fn set_module(&mut self, module: M)
        ensures
            final(self).module == module,
            final(self).control_points == old(self).control_points,
    {
        self.module = module;
    }

    /// Adds a control point to the curve, keeping the points ordered by
    /// input value; it does not matter in which order points are added.
    /// Neither value may be NaN and the input value must not already be
    /// present.
    pub fn add_control_point(&mut self, input_value: u64, output_value: u64)
        requires
            points_wf(old(self).control_points@),
            old(self).control_points@.len() < 0x7FFF_FFFF,
            !is_nan_s(input_value),
            !is_nan_s(output_value),
            forall|i: int|
                0 <= i < old(self).control_points@.len() ==> !fp_eq_s(
                    #[trigger] old(self).control_points@[i].input_value,
                    input_value,
                ),
        ensures
            final(self).control_points@ == old(self).control_points@.insert(
                count_lt(inputs_of(old(self).control_points@), input_value),
                (ControlPoint { input_value, output_value }),
            ),
            points_wf(final(self).control_points@),
            final(self).module == old(self).module,
    {
        let ghost s0 = self.control_points@;
        let ghost ins = inputs_of(s0);
        proof {
            assert(forall|i: int| 0 <= i < s0.len() ==> ins[i] == s0[i].input_value);
            lemma_count_lt_split(ins, input_value);
        }
        // the insertion position is the number of inputs strictly below
        // the new input value
        let n: usize = self.control_points.len();
        let mut idx: usize = 0;
        let mut i: usize = 0;
        proof {
            assert(inputs_of(s0.take(0)) =~= Seq::<u64>::empty());
        }
        while i < n
            invariant
                0 <= idx <= i <= n,
                n == s0.len() < 0x7FFF_FFFF,
                self.control_points@ == s0,
                ins == inputs_of(s0),
                idx == count_lt(inputs_of(s0.take(i as int)), input_value),
            decreases n - i,
        {
            let lt: bool = crate::fp::repr::fp_lt(
                self.control_points[i].input_value,
                input_value,
            );
            proof {
                crate::spline::lemma_count_lt_step(ins, input_value, i as int);
                assert(inputs_of(s0.take(i as int + 1)) =~= ins.take(i as int + 1));
                assert(inputs_of(s0.take(i as int)) =~= ins.take(i as int));
                assert(ins[i as int] == s0[i as int].input_value);
            }
            if lt {
                idx = idx + 1;
            }
            i = i + 1;
        }
        proof {
            assert(s0.take(n as int) =~= s0);
            lemma_insert_keeps_wf(ins, input_value);
            assert(inputs_of(
                s0.insert(count_lt(ins, input_value), (ControlPoint { input_value, output_value })),
            ) =~= ins.insert(count_lt(ins, input_value), input_value));
        }
        self.control_points.insert(idx, ControlPoint { input_value, output_value });
    }

    /// Deletes all the control points on the curve.
    pub fn clear_control_points(&mut self)
        ensures
            final(self).control_points@ =~= Seq::<ControlPoint>::empty(),
            final(self).module == old(self).module,
    {
        self.control_points.clear();
    }

    /// Returns a slice of all the control points on the curve, in order.
    pub fn control_points(&self) -> (r: &[ControlPoint])
        ensures
            r@ == self.control_points@,
    {
        self.control_points.as_slice()
    }
}

impl<M: Module> Module for Curve<M> {
    open spec fn wf(&self) -> bool {
        &&& self.module.wf()
        &&& points_wf(self.control_points@)
        &&& self.control_points@.len() >= 4
    }

    open spec fn value_at(&self, x: u64, y: u64, z: u64) -> u64 {
        let s = self.control_points@;
        let source_value = self.module.value_at(x, y, z);
        let idx_pos = count_le(inputs_of(s), source_value);
        let last = s.len() - 1;
        let idx0 = clamp_index(idx_pos - 2, 0, last);
        let idx1 = clamp_index(idx_pos - 1, 0, last);
        let idx2 = clamp_index(idx_pos, 0, last);
        let idx3 = clamp_index(idx_pos + 1, 0, last);
        if idx1 == idx2 {
            s[idx1].output_value
        } else {
            let input0 = s[idx1].input_value;
            let input1 = s[idx2].input_value;
            let alpha = fp_div_s(fp_sub_s(source_value, input0), fp_sub_s(input1, input0));
            cubic_interp_s(
                s[idx0].output_value,
                s[idx1].output_value,
                s[idx2].output_value,
                s[idx3].output_value,
                alpha,
            )
        }
    }

    fn get_value(&self, x: u64, y: u64, z: u64) -> (r: u64) {
        let source_value: u64 = self.module.get_value(x, y, z);
        let ghost s = self.control_points@;
        let ghost ins = inputs_of(s);
        let n: usize = self.control_points.len();
        // count the control points whose input is at most the source value
        let mut cnt: usize = 0;
        let mut i: usize = 0;
        proof {
            assert(s.take(0) =~= Seq::<ControlPoint>::empty());
            assert(inputs_of(s.take(0)) =~= Seq::<u64>::empty());
        }
        while i < n
            invariant
                0 <= cnt <= i <= n,
                n == s.len() <= 0x7FFF_FFFF,
                self.control_points@ == s,
                ins == inputs_of(s),
                ins.len() == n,
                cnt == count_le(inputs_of(s.take(i as int)), source_value),
            decreases n - i,
        {
            let le: bool = fp_le(self.control_points[i].input_value, source_value);
            proof {
                lemma_count_le_step(ins, source_value, i as int);
                assert(inputs_of(s.take(i as int + 1)) =~= ins.take(i as int + 1));
                assert(inputs_of(s.take(i as int)) =~= ins.take(i as int));
                assert(ins[i as int] == s[i as int].input_value);
            }
            if le {
                cnt = cnt + 1;
            }
            i = i + 1;
        }
        proof {
            assert(s.take(n as int) =~= s);
            crate::spline::lemma_count_le_bounds(ins, source_value);
        }
        let idx_pos: i64 = cnt as i64;
        let last: i64 = (n as i64) - 1;
        let idx0: usize = clamp(idx_pos - 2, 0, last) as usize;
        let idx1: usize = clamp(idx_pos - 1, 0, last) as usize;
        let idx2: usize = clamp(idx_pos, 0, last) as usize;
        let idx3: usize = clamp(idx_pos + 1, 0, last) as usize;
        if idx1 == idx2 {
            return self.control_points[idx1].output_value;
        }
        let input0: u64 = self.control_points[idx1].input_value;
        let input1: u64 = self.control_points[idx2].input_value;
        let alpha: u64 = fp_div(fp_sub(source_value, input0), fp_sub(input1, input0));
        cubic_interp(
            self.control_points[idx0].output_value,
            self.control_points[idx1].output_value,
            self.control_points[idx2].output_value,
            self.control_points[idx3].output_value,
            alpha,
        )
    }
}

/// Sampling a curve below its smallest control input returns exactly
/// that boundary point's output value.
pub proof fn lemma_curve_below_range<M: Module>(c: Curve<M>, x: u64, y: u64, z: u64)
    requires
        c.wf(),
        !is_nan_s(c.module.value_at(x, y, z)),
        crate::fp::repr::fp_lt_s(c.module.value_at(x, y, z), c.control_points@[0].input_value),
    ensures
        c.value_at(x, y, z) == c.control_points@[0].output_value,
{
    let s = c.control_points@;
    let ins = inputs_of(s);
    let v = c.module.value_at(x, y, z);
    lemma_count_le_split(ins, v);
    assert(ins[0] == s[0].input_value);
    if count_le(ins, v) > 0 {
        assert(fp_le_s(ins[0], v));
    }
    assert(count_le(ins, v) == 0);
}

/// Sampling a curve above its largest control input returns exactly that
/// boundary point's output value.
pub proof fn lemma_curve_above_range<M: Module>(c: Curve<M>, x: u64, y: u64, z: u64)
    requires
        c.wf(),
        !is_nan_s(c.module.value_at(x, y, z)),
        crate::fp::repr::fp_lt_s(c.control_points@[c.control_points@.len() - 1].input_value, c.module.value_at(x, y, z)),
    ensures
        c.value_at(x, y, z) == c.control_points@[c.control_points@.len() - 1].output_value,
{
    let s = c.control_points@;
    let ins = inputs_of(s);
    let v = c.module.value_at(x, y, z);
    lemma_count_le_split(ins, v);
    let cl = count_le(ins, v);
    assert(ins[s.len() - 1] == s[s.len() - 1].input_value);
    if cl < s.len() {
        assert(crate::fp::repr::fp_lt_s(v, ins[s.len() - 1]) || cl == s.len() - 1);
        if cl == s.len() - 1 {
            assert(crate::fp::repr::fp_lt_s(v, ins[s.len() - 1]));
        }
    }
    assert(cl == s.len());
}

} // verus!
