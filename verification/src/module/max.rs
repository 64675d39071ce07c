//! Noise module that outputs the larger of the output values from two
//! source modules.

use vstd::prelude::*;
use crate::module::Module;
use crate::fp::repr::{fp_max_s, fp_max};

verus! {

/// Noise module that outputs the larger of the output values from two
/// source modules.
#[derive(Clone)]
pub struct Max<M1: Module, M2: Module> {
    pub module1: M1,
    pub module2: M2,
}

impl<M1: Module, M2: Module> Max<M1, M2> {
    /// Create a new `Max` noise module around the specified modules.
    pub fn new(module1: M1, module2: M2) -> (r: Max<M1, M2>)
        ensures
            r.module1 == module1,
            r.module2 == module2,
    {
        Max { module1, module2 }
    }

    /// Returns a reference to the first source module.
    pub fn module1(&self) -> (r: &M1)
        ensures
            r == &self.module1,
    {
        &self.module1
    }

    /// Returns a mutable reference to the first source module used.
    pub fn module1_mut(&mut self) -> (r: &mut M1)
        ensures
            *r == old(self).module1,
            final(self).module2 == old(self).module2,
    {
        &mut self.module1
    }

    /// Returns a reference to the second source module.
    pub fn module2(&self) -> (r: &M2)
        ensures
            r == &self.module2,
    {
        &self.module2
    }

    /// Returns a mutable reference to the second source module used.
    pub fn module2_mut(&mut self) -> (r: &mut M2)
        ensures
            *r == old(self).module2,
            final(self).module1 == old(self).module1,
    {
        &mut self.module2
    }

    /// Set the first source module to be used.
    pub fn set_module1(&mut self, module: M1)
        ensures
            final(self).module1 == module,
            final(self).module2 == old(self).module2,
    {
        self.module1 = module;
    }

    /// Set the second source module to be used.
    pub fn set_module2(&mut self, module: M2)
        ensures
            final(self).module2 == module,
            final(self).module1 == old(self).module1,
    {
        self.module2 = module;
    }
}

impl<M1: Module, M2: Module> Module for Max<M1, M2> {
    open spec fn wf(&self) -> bool {
        self.module1.wf() && self.module2.wf()
    }

    open spec fn value_at(&self, x: u64, y: u64, z: u64) -> u64 {
        fp_max_s(self.module1.value_at(x, y, z), self.module2.value_at(x, y, z))
    }

    fn get_value(&self, x: u64, y: u64, z: u64) -> (r: u64) {
        fp_max(self.module1.get_value(x, y, z), self.module2.get_value(x, y, z))
    }
}

} // verus!
