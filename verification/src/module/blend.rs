//! Noise module that blends two source modules under a control module.

use vstd::prelude::*;
use crate::module::Module;
use crate::fp::arith::{fp_add_s, fp_div_s, fp_add, fp_div};
use crate::fp::intpart::ONE;
use crate::fp::poly::TWO;
use crate::util::{linear_interp_s, linear_interp};

verus! {

/// Noise module that outputs a weighted blend of the output values from
/// two source modules given the output value supplied by a control
/// module: the blend weight is `(control + 1) / 2`.
#[derive(Clone)]
pub struct Blend<M1: Module, M2: Module, MC: Module> {
    pub module1: M1,
    pub module2: M2,
    pub mcontrol: MC,
}

impl<M1: Module, M2: Module, MC: Module> Blend<M1, M2, MC> {
    /// Create a new `Blend` noise module around the specified modules.
    pub fn new(module1: M1, module2: M2, control: MC) -> (r: Blend<M1, M2, MC>)
        ensures
            r.module1 == module1,
            r.module2 == module2,
            r.mcontrol == control,
    {
        Blend { module1, module2, mcontrol: control }
    }

    /// Returns a reference to the first source module.
    pub fn module1(&self) -> (r: &M1)
        ensures
            r == &self.module1,
    {
        &self.module1
    }

    /// Returns a mutable reference to the first source module used.
    pub fn module1_mut(&mut self) -> (r: &mut M1)
        ensures
            *r == old(self).module1,
            final(self).module2 == old(self).module2,
            final(self).mcontrol == old(self).mcontrol,
    {
        &mut self.module1
    }

    /// Returns a reference to the second source module.
    pub fn module2(&self) -> (r: &M2)
        ensures
            r == &self.module2,
    {
        &self.module2
    }

    /// Returns a mutable reference to the second source module used.
    pub fn module2_mut(&mut self) -> (r: &mut M2)
        ensures
            *r == old(self).module2,
            final(self).module1 == old(self).module1,
            final(self).mcontrol == old(self).mcontrol,
    {
        &mut self.module2
    }

    /// Returns a reference to the control module, whose output weighs
    /// the blend towards the first source module when negative and the
    /// second when positive.
    pub fn control_module(&self) -> (r: &MC)
        ensures
            r == &self.mcontrol,
    {
        &self.mcontrol
    }

    /// Returns a mutable reference to the control module.
    pub fn control_module_mut(&mut self) -> (r: &mut MC)
        ensures
            *r == old(self).mcontrol,
            final(self).module1 == old(self).module1,
            final(self).module2 == old(self).module2,
    {
        &mut self.mcontrol
    }

    /// Set the first module to be used.
    pub fn set_module1(&mut self, module1: M1)
        ensures
            final(self).module1 == module1,
            final(self).module2 == old(self).module2,
            final(self).mcontrol == old(self).mcontrol,
    {
        self.module1 = module1;
    }

    /// Set the second module to be used.
    pub fn set_module2(&mut self, module2: M2)
        ensures
            final(self).module2 == module2,
            final(self).module1 == old(self).module1,
            final(self).mcontrol == old(self).mcontrol,
    {
        self.module2 = module2;
    }

    /// Sets the control module.
    pub fn set_control_module(&mut self, control: MC)
        ensures
            final(self).mcontrol == control,
            final(self).module1 == old(self).module1,
            final(self).module2 == old(self).module2,
    {
        self.mcontrol = control;
    }
}

impl<M1: Module, M2: Module, MC: Module> Module for Blend<M1, M2, MC> {
    open spec fn wf(&self) -> bool {
        self.module1.wf() && self.module2.wf() && self.mcontrol.wf()
    }

    open spec fn value_at(&self, x: u64, y: u64, z: u64) -> u64 {
        let v0 = self.module1.value_at(x, y, z);
        let v1 = self.module2.value_at(x, y, z);
        let alpha = fp_div_s(fp_add_s(self.mcontrol.value_at(x, y, z), ONE), TWO);
        linear_interp_s(v0, v1, alpha)
    }

    fn get_value(&self, x: u64, y: u64, z: u64) -> (r: u64) {
        let v0: u64 = self.module1.get_value(x, y, z);
        let v1: u64 = self.module2.get_value(x, y, z);
        let alpha: u64 = fp_div(fp_add(self.mcontrol.get_value(x, y, z), ONE), TWO);
        linear_interp(v0, v1, alpha)
    }
}

} // verus!
