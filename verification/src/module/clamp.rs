//! Noise module that clamps the output of its source module to a range.

use vstd::prelude::*;
use crate::module::Module;
use crate::fp::repr::{fp_le_s, fp_lt_s, is_nan_s, fp_lt};
use crate::fp::intpart::{NEG_ONE, ONE};

verus! {

/// Default lower bound of the clamping range for the [`Clamp`] noise
/// module.
pub const DEFAULT_CLAMP_LOWER_BOUND: u64 = NEG_ONE;

/// Default upper bound of the clamping range for the [`Clamp`] noise
/// module.
pub const DEFAULT_CLAMP_UPPER_BOUND: u64 = ONE;

/// Noise module that clamps the output value from a source module to a
/// range of values: output below the lower bound is raised to it, and
/// output above the upper bound is lowered to it.
#[derive(Clone)]
pub struct Clamp<M: Module> {
    pub module: M,
    pub lower_bound: u64,
    pub upper_bound: u64,
}

impl<M: Module> Clamp<M> {
    /// Create a new `Clamp` noise module around the specified module,
    /// using default parameters.
    pub fn new(module: M) -> (r: Clamp<M>)
        ensures
            r.module == module,
            r.lower_bound == DEFAULT_CLAMP_LOWER_BOUND,
            r.upper_bound == DEFAULT_CLAMP_UPPER_BOUND,
    {
        Clamp {
            module,
            lower_bound: DEFAULT_CLAMP_LOWER_BOUND,
            upper_bound: DEFAULT_CLAMP_UPPER_BOUND,
        }
    }

    /// Returns a reference to the source module used.
    pub fn module(&self) -> (r: &M)
        ensures
            r == &self.module,
    {
        &self.module
    }

    /// Returns a mutable reference to the source module used.
    pub fn module_mut(&mut self) -> (r: &mut M)
        ensures
            *r == old(self).module,
            final(self).lower_bound == old(self).lower_bound,
            final(self).upper_bound == old(self).upper_bound,
    {
        &mut self.module
    }

    /// Returns the lower bound of the clamping range.
    pub fn lower_bound(&self) -> (r: u64)
        ensures
            r == self.lower_bound,
    {
        self.lower_bound
    }

    /// Returns the upper bound of the clamping range.
    pub fn upper_bound(&self) -> (r: u64)
        ensures
            r == self.upper_bound,
    {
        self.upper_bound
    }

    /// Set the source module to be used.
    pub fn set_module(&mut self, module: M)
        ensures
            final(self).module == module,
            final(self).lower_bound == old(self).lower_bound,
            final(self).upper_bound == old(self).upper_bound,
    {
        self.module = module;
    }

    /// Sets the lower and upper bounds of the clamping range. The lower
    /// bound must not exceed the upper bound.
    pub fn set_bounds(&mut self, lower_bound: u64, upper_bound: u64)
        requires
            !fp_lt_s(upper_bound, lower_bound),
        ensures
            final(self).lower_bound == lower_bound,
            final(self).upper_bound == upper_bound,
            final(self).module == old(self).module,
    {
        self.lower_bound = lower_bound;
        self.upper_bound = upper_bound;
    }
}

impl<M: Module> Module for Clamp<M> {
    open spec fn wf(&self) -> bool {
        self.module.wf() && !fp_lt_s(self.upper_bound, self.lower_bound)
    }

    open spec fn value_at(&self, x: u64, y: u64, z: u64) -> u64 {
        let v = self.module.value_at(x, y, z);
        if fp_lt_s(v, self.lower_bound) {
            self.lower_bound
        } else if fp_lt_s(self.upper_bound, v) {
            self.upper_bound
        } else {
            v
        }
    }

    fn get_value(&self, x: u64, y: u64, z: u64) -> (r: u64) {
        let v: u64 = self.module.get_value(x, y, z);
        if fp_lt(v, self.lower_bound) {
            self.lower_bound
        } else if fp_lt(self.upper_bound, v) {
            self.upper_bound
        } else {
            v
        }
    }
}

/// The clamped field never leaves the clamping range: whenever neither
/// bound nor the source value is NaN, the output is at least the lower
/// bound and at most the upper bound.
pub proof fn lemma_clamp_within_bounds<M: Module>(c: Clamp<M>, x: u64, y: u64, z: u64)
    requires
        !fp_lt_s(c.upper_bound, c.lower_bound),
        !is_nan_s(c.lower_bound),
        !is_nan_s(c.upper_bound),
        !is_nan_s(c.module.value_at(x, y, z)),
    ensures
        fp_le_s(c.lower_bound, c.value_at(x, y, z)),
        fp_le_s(c.value_at(x, y, z), c.upper_bound),
{
}

} // verus!
