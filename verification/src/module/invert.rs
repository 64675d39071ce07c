//! Noise module that inverts the output of its source module.

use vstd::prelude::*;
use crate::module::Module;
use crate::fp::repr::{fp_neg_s, fp_neg};

verus! {

/// Noise module that inverts the output value from a source module.
#[derive(Clone)]
pub struct Invert<M: Module> {
    pub module: M,
}

impl<M: Module> Invert<M> {
    /// Create a new `Invert` noise module around the specified module.
    pub fn new(module: M) -> (r: Invert<M>)
        ensures
            r.module == module,
    {
        Invert { module }
    }

    /// Returns a reference to the source module used.
    pub fn module(&self) -> (r: &M)
        ensures
            r == &self.module,
    {
        &self.module
    }

    /// Returns a mutable reference to the source module used.
    pub fn module_mut(&mut self) -> (r: &mut M)
        ensures
            *r == old(self).module,
    {
        &mut self.module
    }

    /// Set the source module to be used.
    pub fn set_module(&mut self, module: M)
        ensures
            final(self).module == module,
    {
        self.module = module;
    }
}

impl<M: Module> Module for Invert<M> {
    open spec fn wf(&self) -> bool {
        self.module.wf()
    }

    open spec fn value_at(&self, x: u64, y: u64, z: u64) -> u64 {
        fp_neg_s(self.module.value_at(x, y, z))
    }

    fn get_value(&self, x: u64, y: u64, z: u64) -> (r: u64) {
        fp_neg(self.module.get_value(x, y, z))
    }
}

/// Inverting twice restores the source field: for every coordinate, a
/// doubly inverted module models exactly the value of its innermost
/// source module.
pub proof fn lemma_invert_involutive<M: Module>(m: Invert<Invert<M>>, x: u64, y: u64, z: u64)
    ensures
        m.value_at(x, y, z) == m.module.module.value_at(x, y, z),
{
    crate::fp::repr::lemma_neg_involutive(m.module.module.value_at(x, y, z));
}

} // verus!
