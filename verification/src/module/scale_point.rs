//! Noise module that scales the coordinates of the input value.

use vstd::prelude::*;
use crate::module::Module;
use crate::fp::arith::{fp_mul_s, fp_mul};
use crate::fp::intpart::ONE;

verus! {

/// Default scaling factor applied to each coordinate by the
/// [`ScalePoint`] noise module.
pub const DEFAULT_SCALE_POINT_X: u64 = ONE;

pub const DEFAULT_SCALE_POINT_Y: u64 = ONE;

pub const DEFAULT_SCALE_POINT_Z: u64 = ONE;

/// Noise module that scales the coordinates of the input value before
/// returning the output value from a source module.
#[derive(Clone)]
pub struct ScalePoint<M: Module> {
    pub module: M,
    pub scale_x: u64,
    pub scale_y: u64,
    pub scale_z: u64,
}

impl<M: Module> ScalePoint<M> {
    /// Create a new `ScalePoint` noise module around the specified module.
    pub fn new(module: M) -> (r: ScalePoint<M>)
        ensures
            r.module == module,
            r.scale_x == DEFAULT_SCALE_POINT_X,
            r.scale_y == DEFAULT_SCALE_POINT_Y,
            r.scale_z == DEFAULT_SCALE_POINT_Z,
    {
        ScalePoint {
            module,
            scale_x: DEFAULT_SCALE_POINT_X,
            scale_y: DEFAULT_SCALE_POINT_Y,
            scale_z: DEFAULT_SCALE_POINT_Z,
        }
    }

    /// Returns a reference to the source module used.
    pub fn module(&self) -> (r: &M)
        ensures
            r == &self.module,
    {
        &self.module
    }

    /// Returns a mutable reference to the source module used.
    pub fn module_mut(&mut self) -> (r: &mut M)
        ensures
            *r == old(self).module,
            final(self).scale_x == old(self).scale_x,
            final(self).scale_y == old(self).scale_y,
            final(self).scale_z == old(self).scale_z,
    {
        &mut self.module
    }

    /// Returns the scaling factor applied to the `x` coordinate.
    pub fn x_scale(&self) -> (r: u64)
        ensures
            r == self.scale_x,
    {
        self.scale_x
    }

    /// Returns the scaling factor applied to the `y` coordinate.
    pub fn y_scale(&self) -> (r: u64)
        ensures
            r == self.scale_y,
    {
        self.scale_y
    }

    /// Returns the scaling factor applied to the `z` coordinate.
    pub fn z_scale(&self) -> (r: u64)
        ensures
            r == self.scale_z,
    {
        self.scale_z
    }

    /// Set the source module to be used.
    pub fn set_module(&mut self, module: M)
        ensures
            final(self).module == module,
            final(self).scale_x == old(self).scale_x,
            final(self).scale_y == old(self).scale_y,
            final(self).scale_z == old(self).scale_z,
    {
        self.module = module;
    }

    /// Sets one scaling factor applied to all three coordinates.
    pub fn set_scale(&mut self, scale: u64)
        ensures
            final(self).scale_x == scale,
            final(self).scale_y == scale,
            final(self).scale_z == scale,
            final(self).module == old(self).module,
    {
        self.scale_x = scale;
        self.scale_y = scale;
        self.scale_z = scale;
    }

    /// Sets the scaling factor applied to each coordinate.
    pub fn set_xyz_scale(&mut self, x: u64, y: u64, z: u64)
        ensures
            final(self).scale_x == x,
            final(self).scale_y == y,
            final(self).scale_z == z,
            final(self).module == old(self).module,
    {
        self.scale_x = x;
        self.scale_y = y;
        self.scale_z = z;
    }

    /// Sets the scaling factor applied to the `x` coordinate.
    pub fn set_x_scale(&mut self, x: u64)
        ensures
            final(self).scale_x == x,
            final(self).scale_y == old(self).scale_y,
            final(self).scale_z == old(self).scale_z,
            final(self).module == old(self).module,
    {
        self.scale_x = x;
    }

    /// Sets the scaling factor applied to the `y` coordinate.
    pub fn set_y_scale(&mut self, y: u64)
        ensures
            final(self).scale_y == y,
            final(self).scale_x == old(self).scale_x,
            final(self).scale_z == old(self).scale_z,
            final(self).module == old(self).module,
    {
        self.scale_y = y;
    }

    /// Sets the scaling factor applied to the `z` coordinate.
    pub fn set_z_scale(&mut self, z: u64)
        ensures
            final(self).scale_z == z,
            final(self).scale_x == old(self).scale_x,
            final(self).scale_y == old(self).scale_y,
            final(self).module == old(self).module,
    {
        self.scale_z = z;
    }
}

impl<M: Module> Module for ScalePoint<M> {
    open spec fn wf(&self) -> bool {
        self.module.wf()
    }

    open spec fn value_at(&self, x: u64, y: u64, z: u64) -> u64 {
        self.module.value_at(
            fp_mul_s(x, self.scale_x),
            fp_mul_s(y, self.scale_y),
            fp_mul_s(z, self.scale_z),
        )
    }

    fn get_value(&self, x: u64, y: u64, z: u64) -> (r: u64) {
        self.module.get_value(
            fp_mul(x, self.scale_x),
            fp_mul(y, self.scale_y),
            fp_mul(z, self.scale_z),
        )
    }
}

} // verus!
