//! Noise module that outputs a constant value.

use vstd::prelude::*;
use crate::module::Module;
use crate::fp::repr::POS_ZERO;

verus! {

/// Default constant value for the [`Constant`] noise module.
pub const DEFAULT_CONST_VALUE: u64 = POS_ZERO;

/// Noise module that outputs a constant value.
///
/// This noise module is not useful by itself, but it is often used as a
/// source module for other noise modules.
#[derive(Clone)]
pub struct Constant {
    pub val: u64,
}

impl Default for Constant {
    /// Create a new `Constant` noise module with default parameters.
    fn default() -> (r: Constant)
        ensures
            r.val == DEFAULT_CONST_VALUE,
    {
        Constant { val: DEFAULT_CONST_VALUE }
    }
}

impl Constant {
    /// Create a new `Constant` noise module with default parameters.
    pub fn new() -> (r: Constant)
        ensures
            r.val == DEFAULT_CONST_VALUE,
    {
        Constant { val: DEFAULT_CONST_VALUE }
    }

    /// Returns the constant output value for this noise module.
    pub fn const_value(&self) -> (r: u64)
        ensures
            r == self.val,
    {
        self.val
    }

    /// Sets the constant output value for this noise module.
    pub fn set_const_value(&mut self, val: u64)
        ensures
            final(self).val == val,
    {
        self.val = val;
    }
}

impl Module for Constant {
    open spec fn wf(&self) -> bool {
        true
    }

    open spec fn value_at(&self, x: u64, y: u64, z: u64) -> u64 {
        self.val
    }

    fn get_value(&self, x: u64, y: u64, z: u64) -> (r: u64) {
        self.val
    }
}

} // verus!
