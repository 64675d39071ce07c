//! Noise module that displaces the input coordinate by three source
//! modules before sampling a fourth.

use vstd::prelude::*;
use crate::module::Module;
use crate::fp::arith::{fp_add_s, fp_add};

verus! {

/// Noise module that uses three displacement modules to add an offset to
/// each coordinate of the input value before it returns the output value
/// from the source module. All three displacement modules are evaluated
/// at the original, undisplaced coordinate.
#[derive(Clone)]
pub struct Displace<MS: Module, MX: Module, MY: Module, MZ: Module> {
    pub msource: MS,
    pub mdisp_x: MX,
    pub mdisp_y: MY,
    pub mdisp_z: MZ,
}

impl<MS: Module, MX: Module, MY: Module, MZ: Module> Displace<MS, MX, MY, MZ> {
    /// Create a new `Displace` noise module around the specified modules.
    pub fn new(msource: MS, mdisp_x: MX, mdisp_y: MY, mdisp_z: MZ) -> (r: Displace<
        MS,
        MX,
        MY,
        MZ,
    >)
        ensures
            r.msource == msource,
            r.mdisp_x == mdisp_x,
            r.mdisp_y == mdisp_y,
            r.mdisp_z == mdisp_z,
    {
        Displace { msource, mdisp_x, mdisp_y, mdisp_z }
    }

    /// Returns a reference to the source module.
    pub fn module(&self) -> (r: &MS)
        ensures
            r == &self.msource,
    {
        &self.msource
    }

    /// Returns a mutable reference to the source module.
    pub fn module_mut(&mut self) -> (r: &mut MS)
        ensures
            *r == old(self).msource,
            final(self).mdisp_x == old(self).mdisp_x,
            final(self).mdisp_y == old(self).mdisp_y,
            final(self).mdisp_z == old(self).mdisp_z,
    {
        &mut self.msource
    }

    /// Returns a reference to the `x` displacement module.
    pub fn x_displace_module(&self) -> (r: &MX)
        ensures
            r == &self.mdisp_x,
    {
        &self.mdisp_x
    }

    /// Returns a mutable reference to the `x` displacement module.
    pub fn x_displace_module_mut(&mut self) -> (r: &mut MX)
        ensures
            *r == old(self).mdisp_x,
            final(self).msource == old(self).msource,
            final(self).mdisp_y == old(self).mdisp_y,
            final(self).mdisp_z == old(self).mdisp_z,
    {
        &mut self.mdisp_x
    }

    /// Returns a reference to the `y` displacement module.
    pub fn y_displace_module(&self) -> (r: &MY)
        ensures
            r == &self.mdisp_y,
    {
        &self.mdisp_y
    }

    /// Returns a mutable reference to the `y` displacement module.
    pub fn y_displace_module_mut(&mut self) -> (r: &mut MY)
        ensures
            *r == old(self).mdisp_y,
            final(self).msource == old(self).msource,
            final(self).mdisp_x == old(self).mdisp_x,
            final(self).mdisp_z == old(self).mdisp_z,
    {
        &mut self.mdisp_y
    }

    /// Returns a reference to the `z` displacement module.
    pub fn z_displace_module(&self) -> (r: &MZ)
        ensures
            r == &self.mdisp_z,
    {
        &self.mdisp_z
    }

    /// Returns a mutable reference to the `z` displacement module.
    pub fn z_displace_module_mut(&mut self) -> (r: &mut MZ)
        ensures
            *r == old(self).mdisp_z,
            final(self).msource == old(self).msource,
            final(self).mdisp_x == old(self).mdisp_x,
            final(self).mdisp_y == old(self).mdisp_y,
    {
        &mut self.mdisp_z
    }

    /// Set the source module to be used.
    pub fn set_module(&mut self, module: MS)
        ensures
            final(self).msource == module,
            final(self).mdisp_x == old(self).mdisp_x,
            final(self).mdisp_y == old(self).mdisp_y,
            final(self).mdisp_z == old(self).mdisp_z,
    {
        self.msource = module;
    }

    /// Set the `x` displacement module to be used.
    pub fn set_x_displace_module(&mut self, module: MX)
        ensures
            final(self).mdisp_x == module,
            final(self).msource == old(self).msource,
            final(self).mdisp_y == old(self).mdisp_y,
            final(self).mdisp_z == old(self).mdisp_z,
    {
        self.mdisp_x = module;
    }

    /// Set the `y` displacement module to be used.
    pub fn set_y_displace_module(&mut self, module: MY)
        ensures
            final(self).mdisp_y == module,
            final(self).msource == old(self).msource,
            final(self).mdisp_x == old(self).mdisp_x,
            final(self).mdisp_z == old(self).mdisp_z,
    {
        self.mdisp_y = module;
    }

    /// Set the `z` displacement module to be used.
    pub fn set_z_displace_module(&mut self, module: MZ)
        ensures
            final(self).mdisp_z == module,
            final(self).msource == old(self).msource,
            final(self).mdisp_x == old(self).mdisp_x,
            final(self).mdisp_y == old(self).mdisp_y,
    {
        self.mdisp_z = module;
    }
}

impl<MS: Module, MX: Module, MY: Module, MZ: Module> Module for Displace<MS, MX, MY, MZ> {
    open spec fn wf(&self) -> bool {
        self.msource.wf() && self.mdisp_x.wf() && self.mdisp_y.wf() && self.mdisp_z.wf()
    }

    open spec fn value_at(&self, x: u64, y: u64, z: u64) -> u64 {
        let x_displace = fp_add_s(x, self.mdisp_x.value_at(x, y, z));
        let y_displace = fp_add_s(y, self.mdisp_y.value_at(x, y, z));
        let z_displace = fp_add_s(z, self.mdisp_z.value_at(x, y, z));
        self.msource.value_at(x_displace, y_displace, z_displace)
    }

    fn get_value(&self, x: u64, y: u64, z: u64) -> (r: u64) {
        let x_displace: u64 = fp_add(x, self.mdisp_x.get_value(x, y, z));
        let y_displace: u64 = fp_add(y, self.mdisp_y.get_value(x, y, z));
        let z_displace: u64 = fp_add(z, self.mdisp_z.get_value(x, y, z));
        self.msource.get_value(x_displace, y_displace, z_displace)
    }
}

} // verus!
