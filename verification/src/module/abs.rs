//! Noise module that outputs the absolute value of its source module.

use vstd::prelude::*;
use crate::module::Module;
use crate::fp::repr::{fp_abs_s, fp_abs};

verus! {

/// Noise module that outputs the absolute value of the output value from
/// a source module.
#[derive(Clone)]
pub struct Abs<M: Module> {
    pub module: M,
}

impl<M: Module> Abs<M> {
    /// Create a new `Abs` noise module around the specified module.
    pub fn new(module: M) -> (r: Abs<M>)
        ensures
            r.module == module,
    {
        Abs { module }
    }

    /// Returns a reference to the source module used.
    pub fn module(&self) -> (r: &M)
        ensures
            r == &self.module,
    {
        &self.module
    }

    /// Returns a mutable reference to the source module used.
    pub fn module_mut(&mut self) -> (r: &mut M)
        ensures
            *r == old(self).module,
    {
        &mut self.module
    }

    /// Set the source module to be used.
    pub fn set_module(&mut self, module: M)
        ensures
            final(self).module == module,
    {
        self.module = module;
    }
}

impl<M: Module> Module for Abs<M> {
    open spec fn wf(&self) -> bool {
        self.module.wf()
    }

    open spec fn value_at(&self, x: u64, y: u64, z: u64) -> u64 {
        fp_abs_s(self.module.value_at(x, y, z))
    }

    fn get_value(&self, x: u64, y: u64, z: u64) -> (r: u64) {
        fp_abs(self.module.get_value(x, y, z))
    }
}

} // verus!
