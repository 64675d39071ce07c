//! Noise module that outputs the sum of two source modules.

use vstd::prelude::*;
use crate::module::Module;
use crate::fp::arith::{fp_add_s, fp_add};

verus! {

/// Noise module that outputs the sum of the two output values from two
/// source modules.
#[derive(Clone)]
pub struct Add<M1: Module, M2: Module> {
    pub module1: M1,
    pub module2: M2,
}

impl<M1: Module, M2: Module> Add<M1, M2> {
    /// Create a new `Add` noise module around the specified modules.
    pub fn new(module1: M1, module2: M2) -> (r: Add<M1, M2>)
        ensures
            r.module1 == module1,
            r.module2 == module2,
    {
        Add { module1, module2 }
    }

    /// Returns a reference to the first source module.
    pub fn module1(&self) -> (r: &M1)
        ensures
            r == &self.module1,
    {
        &self.module1
    }

    /// Returns a mutable reference to the first source module used.
    pub fn module1_mut(&mut self) -> (r: &mut M1)
        ensures
            *r == old(self).module1,
            final(self).module2 == old(self).module2,
    {
        &mut self.module1
    }

    /// Returns a reference to the second source module.
    pub fn module2(&self) -> (r: &M2)
        ensures
            r == &self.module2,
    {
        &self.module2
    }

    /// Returns a mutable reference to the second source module used.
    pub fn module2_mut(&mut self) -> (r: &mut M2)
        ensures
            *r == old(self).module2,
            final(self).module1 == old(self).module1,
    {
        &mut self.module2
    }

    /// Set the first source module to be used.
    pub fn set_module1(&mut self, module: M1)
        ensures
            final(self).module1 == module,
            final(self).module2 == old(self).module2,
    {
        self.module1 = module;
    }

    /// Set the second source module to be used.
    pub fn set_module2(&mut self, module: M2)
        ensures
            final(self).module2 == module,
            final(self).module1 == old(self).module1,
    {
        self.module2 = module;
    }
}

impl<M1: Module, M2: Module> Module for Add<M1, M2> {
    open spec fn wf(&self) -> bool {
        self.module1.wf() && self.module2.wf()
    }

    open spec fn value_at(&self, x: u64, y: u64, z: u64) -> u64 {
        fp_add_s(self.module1.value_at(x, y, z), self.module2.value_at(x, y, z))
    }

    fn get_value(&self, x: u64, y: u64, z: u64) -> (r: u64) {
        fp_add(self.module1.get_value(x, y, z), self.module2.get_value(x, y, z))
    }
}

/// The sum module models exactly the rounded sum of its two source
/// modules' values, at every coordinate.
pub proof fn lemma_add_is_sum<M1: Module, M2: Module>(m: Add<M1, M2>, x: u64, y: u64, z: u64)
    ensures
        m.value_at(x, y, z) == fp_add_s(m.module1.value_at(x, y, z), m.module2.value_at(x, y, z)),
{
}

} // verus!
