//! Noise module that distorts the input coordinate with internal Perlin
//! noise before sampling its source module.

use vstd::prelude::*;
use crate::module::Module;
use crate::fp::arith::{fp_add_s, fp_mul_s, fp_add, fp_mul};
use crate::fp::intpart::ONE;
use crate::module::perlin::{Perlin, DEFAULT_PERLIN_FREQUENCY, DEFAULT_PERLIN_SEED};
use crate::noisegen::NoiseQuality;

verus! {

/// Default frequency for the [`Turbulence`] noise module.
pub const DEFAULT_TURBULENCE_FREQUENCY: u64 = DEFAULT_PERLIN_FREQUENCY;

/// Default power for the [`Turbulence`] noise module.
pub const DEFAULT_TURBULENCE_POWER: u64 = ONE;

/// Default roughness for the [`Turbulence`] noise module.
pub const DEFAULT_TURBULENCE_ROUGHNESS: i32 = 3;

/// Default noise seed for the [`Turbulence`] noise module.
pub const DEFAULT_TURBULENCE_SEED: i32 = DEFAULT_PERLIN_SEED;

/// Fixed coordinate offsets applied to the three distortion samples so
/// their zero crossings never coincide across axes. Each is an exact
/// dyadic fraction with denominator 65536.
pub const OFF_X0: u64 = 0x3FC83F0000000000;  // 12414 / 65536

pub const OFF_Y0: u64 = 0x3FEFCC8000000000;  // 65124 / 65536

pub const OFF_Z0: u64 = 0x3FDE9A4000000000;  // 31337 / 65536

pub const OFF_X1: u64 = 0x3FD9E5C000000000;  // 26519 / 65536

pub const OFF_Y1: u64 = 0x3FD1B40000000000;  // 18128 / 65536

pub const OFF_Z1: u64 = 0x3FED89A000000000;  // 60493 / 65536

pub const OFF_X2: u64 = 0x3FEA478000000000;  // 53820 / 65536

pub const OFF_Y2: u64 = 0x3FC5E68000000000;  // 11213 / 65536

pub const OFF_Z2: u64 = 0x3FE5E5A000000000;  // 44845 / 65536

/// Noise module that randomly displaces the input value before returning
/// the output value from a source module, using three internally owned
/// Perlin generators as the displacement fields, scaled by `power`.
#[derive(Clone)]
pub struct Turbulence<M: Module> {
    pub power: u64,
    pub msource: M,
    pub x_distort: Perlin,
    pub y_distort: Perlin,
    pub z_distort: Perlin,
}

impl<M: Module> Turbulence<M> {
    /// Create a new `Turbulence` noise module around the specified
    /// module, with default power, roughness, frequency and seed.
    pub fn new(module: M) -> (r: Turbulence<M>)
        ensures
            r.msource == module,
            r.power == DEFAULT_TURBULENCE_POWER,
            r.x_distort.frequency == DEFAULT_TURBULENCE_FREQUENCY,
            r.x_distort.octave_count == DEFAULT_TURBULENCE_ROUGHNESS,
            r.y_distort.octave_count == DEFAULT_TURBULENCE_ROUGHNESS,
            r.z_distort.octave_count == DEFAULT_TURBULENCE_ROUGHNESS,
            r.x_distort.seed == DEFAULT_TURBULENCE_SEED,
            r.y_distort.seed == DEFAULT_TURBULENCE_SEED + 1,
            r.z_distort.seed == DEFAULT_TURBULENCE_SEED + 2,
            r.x_distort.wf() && r.y_distort.wf() && r.z_distort.wf(),
    {
        let x_distort: Perlin = Perlin::new();
        let y_distort: Perlin = Perlin::new();
        let z_distort: Perlin = Perlin::new();
        let mut rv = Turbulence {
            power: DEFAULT_TURBULENCE_POWER,
            msource: module,
            x_distort,
            y_distort,
            z_distort,
        };
        rv.set_seed(DEFAULT_TURBULENCE_SEED);
        rv.set_frequency(DEFAULT_TURBULENCE_FREQUENCY);
        rv.set_roughness(DEFAULT_TURBULENCE_ROUGHNESS);
        rv
    }

    /// Returns a reference to the source module.
    pub fn module(&self) -> (r: &M)
        ensures
            r == &self.msource,
    {
        &self.msource
    }

    /// Returns a mutable reference to the source module.
    pub fn module_mut(&mut self) -> (r: &mut M)
        ensures
            *r == old(self).msource,
            final(self).power == old(self).power,
            final(self).x_distort == old(self).x_distort,
            final(self).y_distort == old(self).y_distort,
            final(self).z_distort == old(self).z_distort,
    {
        &mut self.msource
    }

    /// Returns the frequency of the internal distortion generators.
    pub fn frequency(&self) -> (r: u64)
        ensures
            r == self.x_distort.frequency,
    {
        self.x_distort.frequency()
    }

    /// Returns the power of the turbulence: the scaling applied to each
    /// displacement.
    pub fn power(&self) -> (r: u64)
        ensures
            r == self.power,
    {
        self.power
    }

    /// Returns the roughness of the turbulence: the octave count of the
    /// internal distortion generators.
    pub fn roughness(&self) -> (r: i32)
        ensures
            r == self.x_distort.octave_count,
    {
        self.x_distort.octave_count()
    }

    /// Returns the seed of the first internal distortion generator.
    pub fn seed(&self) -> (r: i32)
        ensures
            r == self.x_distort.seed,
    {
        self.x_distort.seed()
    }

    /// Set the source module to be used.
    pub fn set_module(&mut self, module: M)
        ensures
            final(self).msource == module,
            final(self).power == old(self).power,
            final(self).x_distort == old(self).x_distort,
            final(self).y_distort == old(self).y_distort,
            final(self).z_distort == old(self).z_distort,
    {
        self.msource = module;
    }

    /// Sets the frequency of the three internal distortion generators.
    pub fn set_frequency(&mut self, frequency: u64)
        ensures
            final(self).x_distort == (Perlin { frequency, ..old(self).x_distort }),
            final(self).y_distort == (Perlin { frequency, ..old(self).y_distort }),
            final(self).z_distort == (Perlin { frequency, ..old(self).z_distort }),
            final(self).power == old(self).power,
            final(self).msource == old(self).msource,
    {
        self.x_distort.set_frequency(frequency);
        self.y_distort.set_frequency(frequency);
        self.z_distort.set_frequency(frequency);
    }

    /// Sets the power of the turbulence.
    pub fn set_power(&mut self, power: u64)
        ensures
            final(self).power == power,
            final(self).msource == old(self).msource,
            final(self).x_distort == old(self).x_distort,
            final(self).y_distort == old(self).y_distort,
            final(self).z_distort == old(self).z_distort,
    {
        self.power = power;
    }

    /// Sets the roughness of the turbulence, forwarded as the octave
    /// count of the three internal generators; it must lie between 1
    /// and 30 inclusive.
    pub fn set_roughness(&mut self, roughness: i32)
        requires
            1 <= roughness <= 30,
        ensures
            final(self).x_distort == (Perlin { octave_count: roughness, ..old(self).x_distort }),
            final(self).y_distort == (Perlin { octave_count: roughness, ..old(self).y_distort }),
            final(self).z_distort == (Perlin { octave_count: roughness, ..old(self).z_distort }),
            final(self).power == old(self).power,
            final(self).msource == old(self).msource,
    {
        self.x_distort.set_octave_count(roughness);
        self.y_distort.set_octave_count(roughness);
        self.z_distort.set_octave_count(roughness);
    }

    /// Sets the seed of the turbulence. To avoid artifacts, the three
    /// internal generators receive the consecutive seeds `seed`,
    /// `seed + 1` and `seed + 2`.
    pub fn set_seed(&mut self, seed: i32)
        requires
            seed <= i32::MAX - 2,
        ensures
            final(self).x_distort == (Perlin { seed, ..old(self).x_distort }),
            final(self).y_distort == (Perlin { seed: (seed + 1) as i32, ..old(self).y_distort }),
            final(self).z_distort == (Perlin { seed: (seed + 2) as i32, ..old(self).z_distort }),
            final(self).power == old(self).power,
            final(self).msource == old(self).msource,
    {
        self.x_distort.set_seed(seed);
        self.y_distort.set_seed(seed + 1);
        self.z_distort.set_seed(seed + 2);
    }
}

impl<M: Module> Module for Turbulence<M> {
    open spec fn wf(&self) -> bool {
        &&& self.msource.wf()
        &&& self.x_distort.wf()
        &&& self.y_distort.wf()
        &&& self.z_distort.wf()
    }

    open spec fn value_at(&self, x: u64, y: u64, z: u64) -> u64 {
        let x0 = fp_add_s(x, OFF_X0);
        let y0 = fp_add_s(y, OFF_Y0);
        let z0 = fp_add_s(z, OFF_Z0);
        let x1 = fp_add_s(x, OFF_X1);
        let y1 = fp_add_s(y, OFF_Y1);
        let z1 = fp_add_s(z, OFF_Z1);
        let x2 = fp_add_s(x, OFF_X2);
        let y2 = fp_add_s(y, OFF_Y2);
        let z2 = fp_add_s(z, OFF_Z2);
        let x_distort = fp_add_s(x, fp_mul_s(self.x_distort.value_at(x0, y0, z0), self.power));
        let y_distort = fp_add_s(y, fp_mul_s(self.y_distort.value_at(x1, y1, z1), self.power));
        let z_distort = fp_add_s(z, fp_mul_s(self.z_distort.value_at(x2, y2, z2), self.power));
        self.msource.value_at(x_distort, y_distort, z_distort)
    }

    fn get_value(&self, x: u64, y: u64, z: u64) -> (r: u64) {
        let x0: u64 = fp_add(x, OFF_X0);
        let y0: u64 = fp_add(y, OFF_Y0);
        let z0: u64 = fp_add(z, OFF_Z0);
        let x1: u64 = fp_add(x, OFF_X1);
        let y1: u64 = fp_add(y, OFF_Y1);
        let z1: u64 = fp_add(z, OFF_Z1);
        let x2: u64 = fp_add(x, OFF_X2);
        let y2: u64 = fp_add(y, OFF_Y2);
        let z2: u64 = fp_add(z, OFF_Z2);
        let x_distort: u64 = fp_add(x, fp_mul(self.x_distort.get_value(x0, y0, z0), self.power));
        let y_distort: u64 = fp_add(y, fp_mul(self.y_distort.get_value(x1, y1, z1), self.power));
        let z_distort: u64 = fp_add(z, fp_mul(self.z_distort.get_value(x2, y2, z2), self.power));
        self.msource.get_value(x_distort, y_distort, z_distort)
    }
}

} // verus!
