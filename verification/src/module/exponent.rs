//! Noise module that maps the output of its source module onto an
//! exponential curve.

use vstd::prelude::*;
use crate::module::Module;
use crate::fp::repr::{fp_abs_s, fp_abs};
use crate::fp::arith::{fp_add_s, fp_div_s, fp_mul_s, fp_sub_s, fp_add, fp_div, fp_mul, fp_sub};
use crate::fp::intpart::ONE;
use crate::fp::poly::{fp_pow_s, fp_pow, TWO};

verus! {

/// Default exponent for the [`Exponent`] noise module.
pub const DEFAULT_EXPONENT: u64 = ONE;

/// Noise module that maps the output value from a source module onto an
/// exponential curve: the value is brought from `[-1, 1]` into `[0, 1]`,
/// raised to the configured exponent, and mapped back.
#[derive(Clone)]
pub struct Exponent<M: Module> {
    pub module: M,
    pub exponent: u64,
}

impl<M: Module> Exponent<M> {
    /// Create a new `Exponent` noise module around the specified module.
    pub fn new(module: M) -> (r: Exponent<M>)
        ensures
            r.module == module,
            r.exponent == DEFAULT_EXPONENT,
    {
        Exponent { module, exponent: DEFAULT_EXPONENT }
    }

    /// Returns a reference to the source module used.
    pub fn module(&self) -> (r: &M)
        ensures
            r == &self.module,
    {
        &self.module
    }

    /// Returns a mutable reference to the source module used.
    pub fn module_mut(&mut self) -> (r: &mut M)
        ensures
            *r == old(self).module,
            final(self).exponent == old(self).exponent,
    {
        &mut self.module
    }

    /// Returns the exponent applied to the normalised output value.
    pub fn exponent(&self) -> (r: u64)
        ensures
            r == self.exponent,
    {
        self.exponent
    }

    /// Set the source module to be used.
    pub fn set_module(&mut self, module: M)
        ensures
            final(self).module == module,
            final(self).exponent == old(self).exponent,
    {
        self.module = module;
    }

    /// Sets the exponent applied to the normalised output value.
    pub fn set_exponent(&mut self, exponent: u64)
        ensures
            final(self).exponent == exponent,
            final(self).module == old(self).module,
    {
        self.exponent = exponent;
    }
}

impl<M: Module> Module for Exponent<M> {
    open spec fn wf(&self) -> bool {
        self.module.wf()
    }

    open spec fn value_at(&self, x: u64, y: u64, z: u64) -> u64 {
        let v = self.module.value_at(x, y, z);
        fp_sub_s(
            fp_mul_s(fp_pow_s(fp_abs_s(fp_div_s(fp_add_s(v, ONE), TWO)), self.exponent), TWO),
            ONE,
        )
    }

    fn get_value(&self, x: u64, y: u64, z: u64) -> (r: u64) {
        let v: u64 = self.module.get_value(x, y, z);
        fp_sub(fp_mul(fp_pow(fp_abs(fp_div(fp_add(v, ONE), TWO)), self.exponent), TWO), ONE)
    }
}

} // verus!
