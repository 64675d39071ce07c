//! Noise module that translates the coordinates of the input value.

use vstd::prelude::*;
use crate::module::Module;
use crate::fp::arith::{fp_add_s, fp_add};
use crate::fp::repr::POS_ZERO;

verus! {

/// Default translation applied to each coordinate by the
/// [`TranslatePoint`] noise module.
pub const DEFAULT_TRANSLATE_POINT_X: u64 = POS_ZERO;

pub const DEFAULT_TRANSLATE_POINT_Y: u64 = POS_ZERO;

pub const DEFAULT_TRANSLATE_POINT_Z: u64 = POS_ZERO;

/// Noise module that moves the coordinates of the input value before
/// returning the output value from a source module.
#[derive(Clone)]
pub struct TranslatePoint<M: Module> {
    pub module: M,
    pub trans_x: u64,
    pub trans_y: u64,
    pub trans_z: u64,
}

impl<M: Module> TranslatePoint<M> {
    /// Create a new `TranslatePoint` noise module around the specified
    /// module.
    pub fn new(module: M) -> (r: TranslatePoint<M>)
        ensures
            r.module == module,
            r.trans_x == DEFAULT_TRANSLATE_POINT_X,
            r.trans_y == DEFAULT_TRANSLATE_POINT_Y,
            r.trans_z == DEFAULT_TRANSLATE_POINT_Z,
    {
        TranslatePoint {
            module,
            trans_x: DEFAULT_TRANSLATE_POINT_X,
            trans_y: DEFAULT_TRANSLATE_POINT_Y,
            trans_z: DEFAULT_TRANSLATE_POINT_Z,
        }
    }

    /// Returns a reference to the source module used.
    pub fn module(&self) -> (r: &M)
        ensures
            r == &self.module,
    {
        &self.module
    }

    /// Returns a mutable reference to the source module used.
    pub fn module_mut(&mut self) -> (r: &mut M)
        ensures
            *r == old(self).module,
            final(self).trans_x == old(self).trans_x,
            final(self).trans_y == old(self).trans_y,
            final(self).trans_z == old(self).trans_z,
    {
        &mut self.module
    }

    /// Returns the translation applied to the `x` coordinate.
    pub fn x_trans(&self) -> (r: u64)
        ensures
            r == self.trans_x,
    {
        self.trans_x
    }

    /// Returns the translation applied to the `y` coordinate.
    pub fn y_trans(&self) -> (r: u64)
        ensures
            r == self.trans_y,
    {
        self.trans_y
    }

    /// Returns the translation applied to the `z` coordinate.
    pub fn z_trans(&self) -> (r: u64)
        ensures
            r == self.trans_z,
    {
        self.trans_z
    }

    /// Set the source module to be used.
    pub fn set_module(&mut self, module: M)
        ensures
            final(self).module == module,
            final(self).trans_x == old(self).trans_x,
            final(self).trans_y == old(self).trans_y,
            final(self).trans_z == old(self).trans_z,
    {
        self.module = module;
    }

    /// Sets one translation applied to all three coordinates.
    pub fn set_trans(&mut self, trans: u64)
        ensures
            final(self).trans_x == trans,
            final(self).trans_y == trans,
            final(self).trans_z == trans,
            final(self).module == old(self).module,
    {
        self.trans_x = trans;
        self.trans_y = trans;
        self.trans_z = trans;
    }

    /// Sets the translation applied to each coordinate.
    pub fn set_xyz_trans(&mut self, x: u64, y: u64, z: u64)
        ensures
            final(self).trans_x == x,
            final(self).trans_y == y,
            final(self).trans_z == z,
            final(self).module == old(self).module,
    {
        self.trans_x = x;
        self.trans_y = y;
        self.trans_z = z;
    }

    /// Sets the translation applied to the `x` coordinate.
    pub fn set_x_trans(&mut self, x: u64)
        ensures
            final(self).trans_x == x,
            final(self).trans_y == old(self).trans_y,
            final(self).trans_z == old(self).trans_z,
            final(self).module == old(self).module,
    {
        self.trans_x = x;
    }

    /// Sets the translation applied to the `y` coordinate.
    pub fn set_y_trans(&mut self, y: u64)
        ensures
            final(self).trans_y == y,
            final(self).trans_x == old(self).trans_x,
            final(self).trans_z == old(self).trans_z,
            final(self).module == old(self).module,
    {
        self.trans_y = y;
    }

    /// Sets the translation applied to the `z` coordinate.
    pub fn set_z_trans(&mut self, z: u64)
        ensures
            final(self).trans_z == z,
            final(self).trans_x == old(self).trans_x,
            final(self).trans_y == old(self).trans_y,
            final(self).module == old(self).module,
    {
        self.trans_z = z;
    }
}

impl<M: Module> Module for TranslatePoint<M> {
    open spec fn wf(&self) -> bool {
        self.module.wf()
    }

    open spec fn value_at(&self, x: u64, y: u64, z: u64) -> u64 {
        self.module.value_at(
            fp_add_s(x, self.trans_x),
            fp_add_s(y, self.trans_y),
            fp_add_s(z, self.trans_z),
        )
    }

    fn get_value(&self, x: u64, y: u64, z: u64) -> (r: u64) {
        self.module.get_value(
            fp_add(x, self.trans_x),
            fp_add(y, self.trans_y),
            fp_add(z, self.trans_z),
        )
    }
}

} // verus!
