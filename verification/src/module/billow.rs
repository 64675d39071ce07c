//! Noise module that outputs three-dimensional "billowy" noise.

use vstd::prelude::*;
use crate::module::Module;
use crate::fp::arith::{fp_add_s, fp_mul_s, fp_sub_s, fp_add, fp_mul, fp_sub};
use crate::fp::repr::{fp_abs_s, fp_abs};
use crate::fp::repr::POS_ZERO;
use crate::fp::intpart::ONE;
use crate::fp::poly::{HALF, TWO};
use crate::noisegen::{
    gradient_coherent_noise3d_s, make_i32_range_s, gradient_coherent_noise3d, make_i32_range,
    NoiseQuality,
};

verus! {

/// Default frequency for the [`Billow`] noise module.
pub const DEFAULT_BILLOW_FREQUENCY: u64 = ONE;

/// Default lacunarity for the [`Billow`] noise module.
pub const DEFAULT_BILLOW_LACUNARITY: u64 = TWO;

/// Default number of octaves for the [`Billow`] noise module.
pub const DEFAULT_BILLOW_OCTAVE_COUNT: i32 = 6;

/// Default persistence value for the [`Billow`] noise module: one half.
pub const DEFAULT_BILLOW_PERSISTENCE: u64 = 0x3FE0000000000000;

/// Default noise quality for the [`Billow`] noise module.
pub const DEFAULT_BILLOW_QUALITY: NoiseQuality = NoiseQuality::Standard;

/// Default noise seed for the [`Billow`] noise module.
pub const DEFAULT_BILLOW_SEED: i32 = 0;

/// Maximum number of octaves for the [`Billow`] noise module.
pub const BILLOW_MAX_OCTAVE: i32 = 30;

/// Noise module that generates "billowy" noise suitable for clouds and
/// rocks: Perlin noise whose octave signals are passed through an
/// absolute-value fold, with a constant bias of one half added at the
/// end to keep the nominal midpoint near zero.
#[derive(Clone)]
pub struct Billow {
    pub frequency: u64,
    pub lacunarity: u64,
    pub quality: NoiseQuality,
    pub octave_count: i32,
    pub persistence: u64,
    pub seed: i32,
}

/// The evaluation state after `n` octaves: the scaled coordinate, the
/// current octave's amplitude, and the accumulated value.
pub open spec fn billow_octaves(
    seed: int,
    quality: NoiseQuality,
    lacunarity: u64,
    persistence: u64,
    x: u64,
    y: u64,
    z: u64,
    n: nat,
) -> (u64, u64, u64, u64, u64)
    decreases n,
{
    if n == 0 {
        (x, y, z, ONE, POS_ZERO)
    } else {
        let p = billow_octaves(seed, quality, lacunarity, persistence, x, y, z, (n - 1) as nat);
        let nx = make_i32_range_s(p.0);
        let ny = make_i32_range_s(p.1);
        let nz = make_i32_range_s(p.2);
        let raw = gradient_coherent_noise3d_s(nx, ny, nz, seed + (n - 1), quality);
        let signal = fp_sub_s(fp_mul_s(TWO, fp_abs_s(raw)), ONE);
        let value = fp_add_s(p.4, fp_mul_s(signal, p.3));
        (
            fp_mul_s(p.0, lacunarity),
            fp_mul_s(p.1, lacunarity),
            fp_mul_s(p.2, lacunarity),
            fp_mul_s(p.3, persistence),
            value,
        )
    }
}

impl Default for Billow {
    /// Create a new `Billow` noise module with default parameters.
    fn default() -> (r: Billow)
        ensures
            r == (Billow {
                frequency: DEFAULT_BILLOW_FREQUENCY,
                lacunarity: DEFAULT_BILLOW_LACUNARITY,
                quality: DEFAULT_BILLOW_QUALITY,
                octave_count: DEFAULT_BILLOW_OCTAVE_COUNT,
                persistence: DEFAULT_BILLOW_PERSISTENCE,
                seed: DEFAULT_BILLOW_SEED,
            }),
    {
        Billow {
            frequency: DEFAULT_BILLOW_FREQUENCY,
            lacunarity: DEFAULT_BILLOW_LACUNARITY,
            quality: DEFAULT_BILLOW_QUALITY,
            octave_count: DEFAULT_BILLOW_OCTAVE_COUNT,
            persistence: DEFAULT_BILLOW_PERSISTENCE,
            seed: DEFAULT_BILLOW_SEED,
        }
    }
}

impl Billow {
    /// Create a new `Billow` noise module with default parameters.
    pub fn new() -> (r: Billow)
        ensures
            r == (Billow {
                frequency: DEFAULT_BILLOW_FREQUENCY,
                lacunarity: DEFAULT_BILLOW_LACUNARITY,
                quality: DEFAULT_BILLOW_QUALITY,
                octave_count: DEFAULT_BILLOW_OCTAVE_COUNT,
                persistence: DEFAULT_BILLOW_PERSISTENCE,
                seed: DEFAULT_BILLOW_SEED,
            }),
    {
        Billow {
            frequency: DEFAULT_BILLOW_FREQUENCY,
            lacunarity: DEFAULT_BILLOW_LACUNARITY,
            quality: DEFAULT_BILLOW_QUALITY,
            octave_count: DEFAULT_BILLOW_OCTAVE_COUNT,
            persistence: DEFAULT_BILLOW_PERSISTENCE,
            seed: DEFAULT_BILLOW_SEED,
        }
    }

    /// Returns the frequency of the first octave.
    pub fn frequency(&self) -> (r: u64)
        ensures
            r == self.frequency,
    {
        self.frequency
    }

    /// Returns the lacunarity of the Billow noise: the frequency
    /// multiplier between successive octaves.
    pub fn lacunarity(&self) -> (r: u64)
        ensures
            r == self.lacunarity,
    {
        self.lacunarity
    }

    /// Returns the quality of the Billow noise.
    pub fn quality(&self) -> (r: NoiseQuality)
        ensures
            r == self.quality,
    {
        self.quality
    }

    /// Returns the number of octaves that generate the Billow noise.
    pub fn octave_count(&self) -> (r: i32)
        ensures
            r == self.octave_count,
    {
        self.octave_count
    }

    /// Returns the persistence value of the Billow noise: the amplitude
    /// multiplier between successive octaves.
    pub fn persistence(&self) -> (r: u64)
        ensures
            r == self.persistence,
    {
        self.persistence
    }

    /// Returns the seed value used by the Billow-noise function.
    pub fn seed(&self) -> (r: i32)
        ensures
            r == self.seed,
    {
        self.seed
    }

    /// Sets the frequency of the first octave.
    pub fn set_frequency(&mut self, frequency: u64)
        ensures
            *final(self) == (Billow { frequency, ..*old(self) }),
    {
        self.frequency = frequency;
    }

    /// Sets the lacunarity of the Billow noise.
    pub fn set_lacunarity(&mut self, lacunarity: u64)
        ensures
            *final(self) == (Billow { lacunarity, ..*old(self) }),
    {
        self.lacunarity = lacunarity;
    }

    /// Sets the quality of the Billow noise.
    pub fn set_quality(&mut self, quality: NoiseQuality)
        ensures
            *final(self) == (Billow { quality, ..*old(self) }),
    {
        self.quality = quality;
    }

    /// Sets the number of octaves that generate the Billow noise, which
    /// must lie between 1 and [`BILLOW_MAX_OCTAVE`] inclusive.
    pub fn set_octave_count(&mut self, octave_count: i32)
        requires
            1 <= octave_count <= BILLOW_MAX_OCTAVE,
        ensures
            *final(self) == (Billow { octave_count, ..*old(self) }),
    {
        self.octave_count = octave_count;
    }

    /// Sets the persistence value of the Billow noise.
    pub fn set_persistence(&mut self, persistence: u64)
        ensures
            *final(self) == (Billow { persistence, ..*old(self) }),
    {
        self.persistence = persistence;
    }

    /// Sets the seed value used by the Billow-noise function.
    pub fn set_seed(&mut self, seed: i32)
        ensures
            *final(self) == (Billow { seed, ..*old(self) }),
    {
        self.seed = seed;
    }
}

impl Module for Billow {
    open spec fn wf(&self) -> bool {
        1 <= self.octave_count <= BILLOW_MAX_OCTAVE
    }

    open spec fn value_at(&self, x: u64, y: u64, z: u64) -> u64 {
        let acc = billow_octaves(
            self.seed as int,
            self.quality,
            self.lacunarity,
            self.persistence,
            fp_mul_s(x, self.frequency),
            fp_mul_s(y, self.frequency),
            fp_mul_s(z, self.frequency),
            self.octave_count as nat,
        ).4;
        fp_add_s(acc, HALF)
    }

    fn get_value(&self, x: u64, y: u64, z: u64) -> (r: u64) {
        let mut cx: u64 = fp_mul(x, self.frequency);
        let mut cy: u64 = fp_mul(y, self.frequency);
        let mut cz: u64 = fp_mul(z, self.frequency);
        let mut cur_persistence: u64 = ONE;
        let mut value: u64 = POS_ZERO;
        let ghost sx = cx;
        let ghost sy = cy;
        let ghost sz = cz;
        let mut cur_octave: i32 = 0;
        while cur_octave < self.octave_count
            invariant
                0 <= cur_octave <= self.octave_count <= BILLOW_MAX_OCTAVE,
                (cx, cy, cz, cur_persistence, value) == billow_octaves(
                    self.seed as int,
                    self.quality,
                    self.lacunarity,
                    self.persistence,
                    sx,
                    sy,
                    sz,
                    cur_octave as nat,
                ),
            decreases self.octave_count - cur_octave,
        {
            let nx: u64 = make_i32_range(cx);
            let ny: u64 = make_i32_range(cy);
            let nz: u64 = make_i32_range(cz);
            let seed: i64 = (self.seed as i64) + (cur_octave as i64);
            let raw: u64 = gradient_coherent_noise3d(nx, ny, nz, seed, self.quality);
            let signal: u64 = fp_sub(fp_mul(TWO, fp_abs(raw)), ONE);
            value = fp_add(value, fp_mul(signal, cur_persistence));
            cx = fp_mul(cx, self.lacunarity);
            cy = fp_mul(cy, self.lacunarity);
            cz = fp_mul(cz, self.lacunarity);
            cur_persistence = fp_mul(cur_persistence, self.persistence);
            cur_octave = cur_octave + 1;
        }
        fp_add(value, HALF)
    }
}

} // verus!
