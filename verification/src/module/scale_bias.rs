//! Noise module that scales and shifts the output of its source module.

use vstd::prelude::*;
use crate::module::Module;
use crate::fp::arith::{fp_add_s, fp_mul_s, fp_add, fp_mul};
use crate::fp::repr::POS_ZERO;
use crate::fp::intpart::ONE;

verus! {

/// Default bias for the [`ScaleBias`] noise module.
pub const DEFAULT_BIAS: u64 = POS_ZERO;

/// Default scale for the [`ScaleBias`] noise module.
pub const DEFAULT_SCALE: u64 = ONE;

/// Noise module that multiplies the output value from a source module by
/// a scaling factor and then adds a bias.
#[derive(Clone)]
pub struct ScaleBias<M: Module> {
    pub module: M,
    pub scale: u64,
    pub bias: u64,
}

impl<M: Module> ScaleBias<M> {
    /// Create a new `ScaleBias` noise module around the specified module.
    pub fn new(module: M) -> (r: ScaleBias<M>)
        ensures
            r.module == module,
            r.scale == DEFAULT_SCALE,
            r.bias == DEFAULT_BIAS,
    {
        ScaleBias { module, scale: DEFAULT_SCALE, bias: DEFAULT_BIAS }
    }

    /// Returns a reference to the source module used.
    pub fn module(&self) -> (r: &M)
        ensures
            r == &self.module,
    {
        &self.module
    }

    /// Returns a mutable reference to the source module used.
    pub fn module_mut(&mut self) -> (r: &mut M)
        ensures
            *r == old(self).module,
            final(self).scale == old(self).scale,
            final(self).bias == old(self).bias,
    {
        &mut self.module
    }

    /// Returns the scaling factor applied to the source output.
    pub fn scale(&self) -> (r: u64)
        ensures
            r == self.scale,
    {
        self.scale
    }

    /// Returns the bias added to the scaled source output.
    pub fn bias(&self) -> (r: u64)
        ensures
            r == self.bias,
    {
        self.bias
    }

    /// Set the source module to be used.
    pub fn set_module(&mut self, module: M)
        ensures
            final(self).module == module,
            final(self).scale == old(self).scale,
            final(self).bias == old(self).bias,
    {
        self.module = module;
    }

    /// Sets the scaling factor applied to the source output.
    pub fn set_scale(&mut self, scale: u64)
        ensures
            final(self).scale == scale,
            final(self).module == old(self).module,
            final(self).bias == old(self).bias,
    {
        self.scale = scale;
    }

    /// Sets the bias added to the scaled source output.
    pub fn set_bias(&mut self, bias: u64)
        ensures
            final(self).bias == bias,
            final(self).module == old(self).module,
            final(self).scale == old(self).scale,
    {
        self.bias = bias;
    }
}

impl<M: Module> Module for ScaleBias<M> {
    open spec fn wf(&self) -> bool {
        self.module.wf()
    }

    open spec fn value_at(&self, x: u64, y: u64, z: u64) -> u64 {
        fp_add_s(fp_mul_s(self.module.value_at(x, y, z), self.scale), self.bias)
    }

    fn get_value(&self, x: u64, y: u64, z: u64) -> (r: u64) {
        fp_add(fp_mul(self.module.get_value(x, y, z), self.scale), self.bias)
    }
}

} // verus!
