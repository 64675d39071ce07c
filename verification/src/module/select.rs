//! Noise module that chooses between two source modules under a control
//! module, with an optional smooth transition band.

use vstd::prelude::*;
use crate::module::Module;
use crate::fp::arith::{fp_add_s, fp_div_s, fp_mul_s, fp_sub_s, fp_add, fp_div, fp_mul, fp_sub};
use crate::fp::repr::{fp_lt_s, is_nan_s, fp_lt, POS_ZERO};
use crate::fp::intpart::{NEG_ONE, ONE};
use crate::fp::poly::TWO;
use crate::util::{linear_interp_s, scurve3_s, linear_interp, scurve3};

verus! {

/// Default edge falloff for the [`Select`] noise module.
pub const DEFAULT_SELECT_EDGE_FALLOFF: u64 = POS_ZERO;

/// Default lower bound of the selection range for the [`Select`] noise
/// module.
pub const DEFAULT_SELECT_LOWER_BOUND: u64 = NEG_ONE;

/// Default upper bound of the selection range for the [`Select`] noise
/// module.
pub const DEFAULT_SELECT_UPPER_BOUND: u64 = ONE;

/// Noise module that outputs the value selected from one of two source
/// modules, chosen by the output value from a control module: the second
/// source is selected while the control value lies inside the selection
/// range, and a positive edge falloff blends across each boundary with a
/// cubic S-curve instead of a hard cut.
#[derive(Clone)]
pub struct Select<M1: Module, M2: Module, MC: Module> {
    pub module1: M1,
    pub module2: M2,
    pub mcontrol: MC,
    pub edge_falloff: u64,
    pub lower_bound: u64,
    pub upper_bound: u64,
}

/// The falloff actually applied: clamped so the two transition bands
/// never overlap.
pub open spec fn clamped_falloff_s(lower_bound: u64, upper_bound: u64, edge_falloff: u64) -> u64 {
    let half_size = fp_div_s(fp_sub_s(upper_bound, lower_bound), TWO);
    if fp_lt_s(half_size, edge_falloff) {
        half_size
    } else {
        edge_falloff
    }
}

impl<M1: Module, M2: Module, MC: Module> Select<M1, M2, MC> {
    /// Create a new `Select` noise module around the specified modules,
    /// using default parameters.
    pub fn new(module1: M1, module2: M2, control: MC) -> (r: Select<M1, M2, MC>)
        ensures
            r.module1 == module1,
            r.module2 == module2,
            r.mcontrol == control,
            r.edge_falloff == DEFAULT_SELECT_EDGE_FALLOFF,
            r.lower_bound == DEFAULT_SELECT_LOWER_BOUND,
            r.upper_bound == DEFAULT_SELECT_UPPER_BOUND,
    {
        Select {
            module1,
            module2,
            mcontrol: control,
            edge_falloff: DEFAULT_SELECT_EDGE_FALLOFF,
            lower_bound: DEFAULT_SELECT_LOWER_BOUND,
            upper_bound: DEFAULT_SELECT_UPPER_BOUND,
        }
    }

    /// Returns a reference to the first source module, selected outside
    /// the selection range.
    pub fn module1(&self) -> (r: &M1)
        ensures
            r == &self.module1,
    {
        &self.module1
    }

    /// Returns a mutable reference to the first source module used.
    pub fn module1_mut(&mut self) -> (r: &mut M1)
        ensures
            *r == old(self).module1,
            final(self).module2 == old(self).module2,
            final(self).mcontrol == old(self).mcontrol,
            final(self).edge_falloff == old(self).edge_falloff,
            final(self).lower_bound == old(self).lower_bound,
            final(self).upper_bound == old(self).upper_bound,
    {
        &mut self.module1
    }

    /// Returns a reference to the second source module, selected inside
    /// the selection range.
    pub fn module2(&self) -> (r: &M2)
        ensures
            r == &self.module2,
    {
        &self.module2
    }

    /// Returns a mutable reference to the second source module used.
    pub fn module2_mut(&mut self) -> (r: &mut M2)
        ensures
            *r == old(self).module2,
            final(self).module1 == old(self).module1,
            final(self).mcontrol == old(self).mcontrol,
            final(self).edge_falloff == old(self).edge_falloff,
            final(self).lower_bound == old(self).lower_bound,
            final(self).upper_bound == old(self).upper_bound,
    {
        &mut self.module2
    }

    /// Returns a reference to the control module.
    pub fn control_module(&self) -> (r: &MC)
        ensures
            r == &self.mcontrol,
    {
        &self.mcontrol
    }

    /// Returns a mutable reference to the control module.
    pub fn control_module_mut(&mut self) -> (r: &mut MC)
        ensures
            *r == old(self).mcontrol,
            final(self).module1 == old(self).module1,
            final(self).module2 == old(self).module2,
            final(self).edge_falloff == old(self).edge_falloff,
            final(self).lower_bound == old(self).lower_bound,
            final(self).upper_bound == old(self).upper_bound,
    {
        &mut self.mcontrol
    }

    /// Returns the falloff value at the edges of the selection range.
    pub fn edge_falloff(&self) -> (r: u64)
        ensures
            r == self.edge_falloff,
    {
        self.edge_falloff
    }

    /// Returns the lower bound of the selection range.
    pub fn lower_bound(&self) -> (r: u64)
        ensures
            r == self.lower_bound,
    {
        self.lower_bound
    }

    /// Returns the upper bound of the selection range.
    pub fn upper_bound(&self) -> (r: u64)
        ensures
            r == self.upper_bound,
    {
        self.upper_bound
    }

    /// Set the first module to be used.
    pub fn set_module1(&mut self, module1: M1)
        ensures
            final(self).module1 == module1,
            final(self).module2 == old(self).module2,
            final(self).mcontrol == old(self).mcontrol,
            final(self).edge_falloff == old(self).edge_falloff,
            final(self).lower_bound == old(self).lower_bound,
            final(self).upper_bound == old(self).upper_bound,
    {
        self.module1 = module1;
    }

    /// Set the second module to be used.
    pub fn set_module2(&mut self, module2: M2)
        ensures
            final(self).module2 == module2,
            final(self).module1 == old(self).module1,
            final(self).mcontrol == old(self).mcontrol,
            final(self).edge_falloff == old(self).edge_falloff,
            final(self).lower_bound == old(self).lower_bound,
            final(self).upper_bound == old(self).upper_bound,
    {
        self.module2 = module2;
    }

    /// Sets the control module.
    pub fn set_control_module(&mut self, control: MC)
        ensures
            final(self).mcontrol == control,
            final(self).module1 == old(self).module1,
            final(self).module2 == old(self).module2,
            final(self).edge_falloff == old(self).edge_falloff,
            final(self).lower_bound == old(self).lower_bound,
            final(self).upper_bound == old(self).upper_bound,
    {
        self.mcontrol = control;
    }

    /// Sets the falloff value at the edges of the selection range,
    /// clamped so the two transition bands never overlap.
    pub fn set_edge_falloff(&mut self, edge_falloff: u64)
        ensures
            final(self).edge_falloff == clamped_falloff_s(
                old(self).lower_bound,
                old(self).upper_bound,
                edge_falloff,
            ),
            final(self).module1 == old(self).module1,
            final(self).module2 == old(self).module2,
            final(self).mcontrol == old(self).mcontrol,
            final(self).lower_bound == old(self).lower_bound,
            final(self).upper_bound == old(self).upper_bound,
    {
        self.edge_falloff = edge_falloff;
        self.clamp_falloff();
    }

    /// Sets the lower and upper bounds of the selection range and
    /// re-clamps the falloff. The lower bound must not exceed the upper
    /// bound.
    pub fn set_bounds(&mut self, lower_bound: u64, upper_bound: u64)
        requires
            !fp_lt_s(upper_bound, lower_bound),
        ensures
            final(self).lower_bound == lower_bound,
            final(self).upper_bound == upper_bound,
            final(self).edge_falloff == clamped_falloff_s(
                lower_bound,
                upper_bound,
                old(self).edge_falloff,
            ),
            final(self).module1 == old(self).module1,
            final(self).module2 == old(self).module2,
            final(self).mcontrol == old(self).mcontrol,
    {
        self.lower_bound = lower_bound;
        self.upper_bound = upper_bound;
        self.clamp_falloff();
    }

    fn clamp_falloff(&mut self)
        ensures
            final(self).edge_falloff == clamped_falloff_s(
                old(self).lower_bound,
                old(self).upper_bound,
                old(self).edge_falloff,
            ),
            final(self).module1 == old(self).module1,
            final(self).module2 == old(self).module2,
            final(self).mcontrol == old(self).mcontrol,
            final(self).lower_bound == old(self).lower_bound,
            final(self).upper_bound == old(self).upper_bound,
    {
        let half_size: u64 = fp_div(fp_sub(self.upper_bound, self.lower_bound), TWO);
        if fp_lt(half_size, self.edge_falloff) {
            self.edge_falloff = half_size;
        }
    }
}

impl<M1: Module, M2: Module, MC: Module> Module for Select<M1, M2, MC> {
    open spec fn wf(&self) -> bool {
        self.module1.wf() && self.module2.wf() && self.mcontrol.wf()
    }

    open spec fn value_at(&self, x: u64, y: u64, z: u64) -> u64 {
        let control_value = self.mcontrol.value_at(x, y, z);
        if fp_lt_s(POS_ZERO, self.edge_falloff) {
            if fp_lt_s(control_value, fp_sub_s(self.lower_bound, self.edge_falloff)) {
                self.module1.value_at(x, y, z)
            } else if fp_lt_s(control_value, fp_add_s(self.lower_bound, self.edge_falloff)) {
                let lower_curve = fp_sub_s(self.lower_bound, self.edge_falloff);
                let upper_curve = fp_add_s(self.lower_bound, self.edge_falloff);
                let alpha = scurve3_s(
                    fp_div_s(
                        fp_sub_s(control_value, lower_curve),
                        fp_sub_s(upper_curve, lower_curve),
                    ),
                );
                linear_interp_s(
                    self.module1.value_at(x, y, z),
                    self.module2.value_at(x, y, z),
                    alpha,
                )
            } else if fp_lt_s(control_value, fp_sub_s(self.upper_bound, self.edge_falloff)) {
                self.module2.value_at(x, y, z)
            } else if fp_lt_s(control_value, fp_add_s(self.upper_bound, self.edge_falloff)) {
                let lower_curve = fp_sub_s(self.upper_bound, self.edge_falloff);
                let upper_curve = fp_add_s(self.upper_bound, self.edge_falloff);
                let alpha = scurve3_s(
                    fp_div_s(
                        fp_sub_s(control_value, lower_curve),
                        fp_sub_s(upper_curve, lower_curve),
                    ),
                );
                linear_interp_s(
                    self.module2.value_at(x, y, z),
                    self.module1.value_at(x, y, z),
                    alpha,
                )
            } else {
                self.module1.value_at(x, y, z)
            }
        } else {
            if fp_lt_s(control_value, self.lower_bound) || fp_lt_s(
                self.upper_bound,
                control_value,
            ) {
                self.module1.value_at(x, y, z)
            } else {
                self.module2.value_at(x, y, z)
            }
        }
    }

    fn get_value(&self, x: u64, y: u64, z: u64) -> (r: u64) {
        let control_value: u64 = self.mcontrol.get_value(x, y, z);
        if fp_lt(POS_ZERO, self.edge_falloff) {
            if fp_lt(control_value, fp_sub(self.lower_bound, self.edge_falloff)) {
                self.module1.get_value(x, y, z)
            } else if fp_lt(control_value, fp_add(self.lower_bound, self.edge_falloff)) {
                let lower_curve: u64 = fp_sub(self.lower_bound, self.edge_falloff);
                let upper_curve: u64 = fp_add(self.lower_bound, self.edge_falloff);
                let alpha: u64 = scurve3(
                    fp_div(fp_sub(control_value, lower_curve), fp_sub(upper_curve, lower_curve)),
                );
                linear_interp(
                    self.module1.get_value(x, y, z),
                    self.module2.get_value(x, y, z),
                    alpha,
                )
            } else if fp_lt(control_value, fp_sub(self.upper_bound, self.edge_falloff)) {
                self.module2.get_value(x, y, z)
            } else if fp_lt(control_value, fp_add(self.upper_bound, self.edge_falloff)) {
                let lower_curve: u64 = fp_sub(self.upper_bound, self.edge_falloff);
                let upper_curve: u64 = fp_add(self.upper_bound, self.edge_falloff);
                let alpha: u64 = scurve3(
                    fp_div(fp_sub(control_value, lower_curve), fp_sub(upper_curve, lower_curve)),
                );
                linear_interp(
                    self.module2.get_value(x, y, z),
                    self.module1.get_value(x, y, z),
                    alpha,
                )
            } else {
                self.module1.get_value(x, y, z)
            }
        } else {
            if fp_lt(control_value, self.lower_bound) || fp_lt(self.upper_bound, control_value) {
                self.module1.get_value(x, y, z)
            } else {
                self.module2.get_value(x, y, z)
            }
        }
    }
}

/// With no falloff, a control value inside the selection range selects
/// the second source module exactly.
pub proof fn lemma_select_inside_range<M1: Module, M2: Module, MC: Module>(
    s: Select<M1, M2, MC>,
    x: u64,
    y: u64,
    z: u64,
)
    requires
        !fp_lt_s(POS_ZERO, s.edge_falloff),
        !fp_lt_s(s.mcontrol.value_at(x, y, z), s.lower_bound),
        !fp_lt_s(s.upper_bound, s.mcontrol.value_at(x, y, z)),
    ensures
        s.value_at(x, y, z) == s.module2.value_at(x, y, z),
{
}

/// With no falloff, a control value outside the selection range selects
/// the first source module exactly.
pub proof fn lemma_select_outside_range<M1: Module, M2: Module, MC: Module>(
    s: Select<M1, M2, MC>,
    x: u64,
    y: u64,
    z: u64,
)
    requires
        !fp_lt_s(POS_ZERO, s.edge_falloff),
        fp_lt_s(s.mcontrol.value_at(x, y, z), s.lower_bound) || fp_lt_s(
            s.upper_bound,
            s.mcontrol.value_at(x, y, z),
        ),
    ensures
        s.value_at(x, y, z) == s.module1.value_at(x, y, z),
{
}

/// At a control value exactly one falloff below the lower bound, a
/// select module with positive falloff returns its first source module's
/// value: the transition band starts there with a blend weight of zero.
/// The first source value must not be NaN, the second must be finite,
/// the band edge must be finite, and the band must have nonzero width.
pub proof fn lemma_select_lower_edge<M1: Module, M2: Module, MC: Module>(
    s: Select<M1, M2, MC>,
    x: u64,
    y: u64,
    z: u64,
)
    requires
        fp_lt_s(POS_ZERO, s.edge_falloff),
        s.mcontrol.value_at(x, y, z) == fp_sub_s(s.lower_bound, s.edge_falloff),
        crate::fp::repr::is_finite_s(fp_sub_s(s.lower_bound, s.edge_falloff)),
        fp_lt_s(fp_sub_s(s.lower_bound, s.edge_falloff), fp_add_s(s.lower_bound, s.edge_falloff)),
        fp_lt_s(
            POS_ZERO,
            fp_sub_s(
                fp_add_s(s.lower_bound, s.edge_falloff),
                fp_sub_s(s.lower_bound, s.edge_falloff),
            ),
        ),
        !is_nan_s(s.module1.value_at(x, y, z)),
        crate::fp::repr::is_finite_s(s.module2.value_at(x, y, z)),
    ensures
        crate::fp::repr::fp_eq_s(s.value_at(x, y, z), s.module1.value_at(x, y, z)),
{
    let c = s.mcontrol.value_at(x, y, z);
    let lc = fp_sub_s(s.lower_bound, s.edge_falloff);
    let uc = fp_add_s(s.lower_bound, s.edge_falloff);
    let v1 = s.module1.value_at(x, y, z);
    let v2 = s.module2.value_at(x, y, z);
    assert(!fp_lt_s(c, lc));
    assert(fp_lt_s(c, uc));
    crate::fp::arith::lemma_sub_self(lc);
    let num = fp_sub_s(c, lc);
    assert(num == POS_ZERO);
    let den = fp_sub_s(uc, lc);
    assert(!is_nan_s(den));
    assert(!crate::fp::repr::sign_of(den) && !crate::fp::repr::is_zero_s(den)) by {
        if crate::fp::repr::sign_of(den) || crate::fp::repr::mag_of(den) == 0 {
            assert(crate::fp::repr::fp_key(den) <= 0);
        }
    }
    let q = crate::fp::arith::fp_div_s(num, den);
    assert(q == POS_ZERO);
    let alpha = crate::util::scurve3_s(q);
    assert(alpha == POS_ZERO);
    crate::fp::arith::lemma_mul_one(v1);
    assert(fp_sub_s(crate::fp::intpart::ONE, POS_ZERO) == crate::fp::intpart::ONE);
    let zv2 = crate::fp::arith::fp_mul_s(POS_ZERO, v2);
    assert(crate::fp::repr::is_zero_s(zv2));
    let lerp = crate::util::linear_interp_s(v1, v2, alpha);
    assert(lerp == fp_add_s(v1, zv2));
    if crate::fp::repr::is_zero_s(v1) {
        assert(crate::fp::repr::is_zero_s(lerp));
    } else {
        assert(lerp == v1);
    }
}

} // verus!
