//! Noise module that outputs concentric spheres.

use vstd::prelude::*;
use crate::module::Module;
use crate::fp::arith::{fp_mul_s, fp_sub_s, fp_add_s, fp_mul, fp_sub, fp_add};
use crate::fp::repr::{fp_min_s, fp_min};
use crate::fp::roots::{fp_sqrt_s, fp_sqrt};
use crate::fp::intpart::{fp_floor_s, fp_floor, ONE};
use crate::module::cylinders::FOUR;

verus! {

/// Default frequency value for the [`Spheres`] noise module.
pub const DEFAULT_SPHERES_FREQUENCY: u64 = ONE;

/// Noise module that outputs concentric spheres centered on the origin.
/// Input values on a sphere surface map to 1.0, and values equidistant
/// from two surfaces map to -1.0.
#[derive(Clone)]
pub struct Spheres {
    pub frequency: u64,
}

impl Default for Spheres {
    /// Create a new `Spheres` noise module with default parameters.
    fn default() -> (r: Spheres)
        ensures
            r.frequency == DEFAULT_SPHERES_FREQUENCY,
    {
        Spheres { frequency: DEFAULT_SPHERES_FREQUENCY }
    }
}

impl Spheres {
    /// Create a new `Spheres` noise module with default parameters.
    pub fn new() -> (r: Spheres)
        ensures
            r.frequency == DEFAULT_SPHERES_FREQUENCY,
    {
        Spheres { frequency: DEFAULT_SPHERES_FREQUENCY }
    }

    /// Returns the frequency of the concentric spheres.
    pub fn frequency(&self) -> (r: u64)
        ensures
            r == self.frequency,
    {
        self.frequency
    }

    /// Sets the frequency of the concentric spheres. Increasing the
    /// frequency reduces the distances between them.
    pub fn set_frequency(&mut self, frequency: u64)
        ensures
            final(self).frequency == frequency,
    {
        self.frequency = frequency;
    }
}

impl Module for Spheres {
    open spec fn wf(&self) -> bool {
        true
    }

    open spec fn value_at(&self, x: u64, y: u64, z: u64) -> u64 {
        let xf = fp_mul_s(x, self.frequency);
        let yf = fp_mul_s(y, self.frequency);
        let zf = fp_mul_s(z, self.frequency);
        let dist_from_centre = fp_sqrt_s(
            fp_add_s(fp_add_s(fp_mul_s(xf, xf), fp_mul_s(yf, yf)), fp_mul_s(zf, zf)),
        );
        let dist_from_smaller_sphere = fp_sub_s(dist_from_centre, fp_floor_s(dist_from_centre));
        let dist_from_larger_sphere = fp_sub_s(ONE, dist_from_smaller_sphere);
        let nearest_dist = fp_min_s(dist_from_smaller_sphere, dist_from_larger_sphere);
        fp_sub_s(ONE, fp_mul_s(nearest_dist, FOUR))
    }

    fn get_value(&self, x: u64, y: u64, z: u64) -> (r: u64) {
        let xf: u64 = fp_mul(x, self.frequency);
        let yf: u64 = fp_mul(y, self.frequency);
        let zf: u64 = fp_mul(z, self.frequency);
        let dist_from_centre: u64 = fp_sqrt(
            fp_add(fp_add(fp_mul(xf, xf), fp_mul(yf, yf)), fp_mul(zf, zf)),
        );
        let dist_from_smaller_sphere: u64 = fp_sub(dist_from_centre, fp_floor(dist_from_centre));
        let dist_from_larger_sphere: u64 = fp_sub(ONE, dist_from_smaller_sphere);
        let nearest_dist: u64 = fp_min(dist_from_smaller_sphere, dist_from_larger_sphere);
        fp_sub(ONE, fp_mul(nearest_dist, FOUR))
    }
}

} // verus!
