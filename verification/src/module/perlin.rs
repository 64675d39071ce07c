//! Noise module that outputs 3-dimensional Perlin noise.

use vstd::prelude::*;
use crate::module::Module;
use crate::fp::arith::{fp_add_s, fp_mul_s, fp_add, fp_mul};
use crate::fp::repr::POS_ZERO;
use crate::fp::intpart::ONE;
use crate::fp::poly::TWO;
use crate::noisegen::{
    gradient_coherent_noise3d_s, make_i32_range_s, gradient_coherent_noise3d, make_i32_range,
    NoiseQuality,
};

verus! {

/// Default frequency for the [`Perlin`] noise module.
pub const DEFAULT_PERLIN_FREQUENCY: u64 = ONE;

/// Default lacunarity for the [`Perlin`] noise module.
pub const DEFAULT_PERLIN_LACUNARITY: u64 = TWO;

/// Default number of octaves for the [`Perlin`] noise module.
pub const DEFAULT_PERLIN_OCTAVE_COUNT: i32 = 6;

/// Default persistence value for the [`Perlin`] noise module: one half.
pub const DEFAULT_PERLIN_PERSISTENCE: u64 = 0x3FE0000000000000;

/// Default noise quality for the [`Perlin`] noise module.
pub const DEFAULT_PERLIN_QUALITY: NoiseQuality = NoiseQuality::Standard;

/// Default noise seed for the [`Perlin`] noise module.
pub const DEFAULT_PERLIN_SEED: i32 = 0;

/// Maximum number of octaves for the [`Perlin`] noise module.
pub const PERLIN_MAX_OCTAVE: i32 = 30;

/// Noise module that outputs 3-dimensional Perlin noise: the sum of
/// several coherent-noise octaves of ever-increasing frequency and
/// ever-decreasing amplitude. Output values usually range from -1.0 to
/// +1.0, with no hard guarantee.
#[derive(Clone)]
pub struct Perlin {
    pub frequency: u64,
    pub lacunarity: u64,
    pub quality: NoiseQuality,
    pub octave_count: i32,
    pub persistence: u64,
    pub seed: i32,
}

/// The evaluation state after `n` octaves: the scaled coordinate, the
/// current octave's amplitude, and the accumulated value.
pub open spec fn perlin_octaves(
    seed: int,
    quality: NoiseQuality,
    lacunarity: u64,
    persistence: u64,
    x: u64,
    y: u64,
    z: u64,
    n: nat,
) -> (u64, u64, u64, u64, u64)
    decreases n,
{
    if n == 0 {
        (x, y, z, ONE, POS_ZERO)
    } else {
        let p = perlin_octaves(seed, quality, lacunarity, persistence, x, y, z, (n - 1) as nat);
        let nx = make_i32_range_s(p.0);
        let ny = make_i32_range_s(p.1);
        let nz = make_i32_range_s(p.2);
        let signal = gradient_coherent_noise3d_s(nx, ny, nz, seed + (n - 1), quality);
        let value = fp_add_s(p.4, fp_mul_s(signal, p.3));
        (
            fp_mul_s(p.0, lacunarity),
            fp_mul_s(p.1, lacunarity),
            fp_mul_s(p.2, lacunarity),
            fp_mul_s(p.3, persistence),
            value,
        )
    }
}

impl Default for Perlin {
    /// Create a new `Perlin` noise module with default parameters.
    fn default() -> (r: Perlin)
        ensures
            r == (Perlin {
                frequency: DEFAULT_PERLIN_FREQUENCY,
                lacunarity: DEFAULT_PERLIN_LACUNARITY,
                quality: DEFAULT_PERLIN_QUALITY,
                octave_count: DEFAULT_PERLIN_OCTAVE_COUNT,
                persistence: DEFAULT_PERLIN_PERSISTENCE,
                seed: DEFAULT_PERLIN_SEED,
            }),
    {
        Perlin {
            frequency: DEFAULT_PERLIN_FREQUENCY,
            lacunarity: DEFAULT_PERLIN_LACUNARITY,
            quality: DEFAULT_PERLIN_QUALITY,
            octave_count: DEFAULT_PERLIN_OCTAVE_COUNT,
            persistence: DEFAULT_PERLIN_PERSISTENCE,
            seed: DEFAULT_PERLIN_SEED,
        }
    }
}

impl Perlin {
    /// Create a new `Perlin` noise module with default parameters.
    pub fn new() -> (r: Perlin)
        ensures
            r == (Perlin {
                frequency: DEFAULT_PERLIN_FREQUENCY,
                lacunarity: DEFAULT_PERLIN_LACUNARITY,
                quality: DEFAULT_PERLIN_QUALITY,
                octave_count: DEFAULT_PERLIN_OCTAVE_COUNT,
                persistence: DEFAULT_PERLIN_PERSISTENCE,
                seed: DEFAULT_PERLIN_SEED,
            }),
    {
        Perlin {
            frequency: DEFAULT_PERLIN_FREQUENCY,
            lacunarity: DEFAULT_PERLIN_LACUNARITY,
            quality: DEFAULT_PERLIN_QUALITY,
            octave_count: DEFAULT_PERLIN_OCTAVE_COUNT,
            persistence: DEFAULT_PERLIN_PERSISTENCE,
            seed: DEFAULT_PERLIN_SEED,
        }
    }

    /// Returns the frequency of the first octave.
    pub fn frequency(&self) -> (r: u64)
        ensures
            r == self.frequency,
    {
        self.frequency
    }

    /// Returns the lacunarity of the Perlin noise: the frequency
    /// multiplier between successive octaves.
    pub fn lacunarity(&self) -> (r: u64)
        ensures
            r == self.lacunarity,
    {
        self.lacunarity
    }

    /// Returns the quality of the Perlin noise.
    pub fn quality(&self) -> (r: NoiseQuality)
        ensures
            r == self.quality,
    {
        self.quality
    }

    /// Returns the number of octaves that generate the Perlin noise.
    pub fn octave_count(&self) -> (r: i32)
        ensures
            r == self.octave_count,
    {
        self.octave_count
    }

    /// Returns the persistence value of the Perlin noise: the amplitude
    /// multiplier between successive octaves.
    pub fn persistence(&self) -> (r: u64)
        ensures
            r == self.persistence,
    {
        self.persistence
    }

    /// Returns the seed value used by the Perlin-noise function.
    pub fn seed(&self) -> (r: i32)
        ensures
            r == self.seed,
    {
        self.seed
    }

    /// Sets the frequency of the first octave.
    pub fn set_frequency(&mut self, frequency: u64)
        ensures
            *final(self) == (Perlin { frequency, ..*old(self) }),
    {
        self.frequency = frequency;
    }

    /// Sets the lacunarity of the Perlin noise.
    pub fn set_lacunarity(&mut self, lacunarity: u64)
        ensures
            *final(self) == (Perlin { lacunarity, ..*old(self) }),
    {
        self.lacunarity = lacunarity;
    }

    /// Sets the quality of the Perlin noise.
    pub fn set_quality(&mut self, quality: NoiseQuality)
        ensures
            *final(self) == (Perlin { quality, ..*old(self) }),
    {
        self.quality = quality;
    }

    /// Sets the number of octaves that generate the Perlin noise, which
    /// must lie between 1 and [`PERLIN_MAX_OCTAVE`] inclusive.
    pub fn set_octave_count(&mut self, octave_count: i32)
        requires
            1 <= octave_count <= PERLIN_MAX_OCTAVE,
        ensures
            *final(self) == (Perlin { octave_count, ..*old(self) }),
    {
        self.octave_count = octave_count;
    }

    /// Sets the persistence value of the Perlin noise.
    pub fn set_persistence(&mut self, persistence: u64)
        ensures
            *final(self) == (Perlin { persistence, ..*old(self) }),
    {
        self.persistence = persistence;
    }

    /// Sets the seed value used by the Perlin-noise function.
    pub fn set_seed(&mut self, seed: i32)
        ensures
            *final(self) == (Perlin { seed, ..*old(self) }),
    {
        self.seed = seed;
    }
}

impl Module for Perlin {
    open spec fn wf(&self) -> bool {
        1 <= self.octave_count <= PERLIN_MAX_OCTAVE
    }

    open spec fn value_at(&self, x: u64, y: u64, z: u64) -> u64 {
        perlin_octaves(
            self.seed as int,
            self.quality,
            self.lacunarity,
            self.persistence,
            fp_mul_s(x, self.frequency),
            fp_mul_s(y, self.frequency),
            fp_mul_s(z, self.frequency),
            self.octave_count as nat,
        ).4
    }

    fn get_value(&self, x: u64, y: u64, z: u64) -> (r: u64) {
        let mut cx: u64 = fp_mul(x, self.frequency);
        let mut cy: u64 = fp_mul(y, self.frequency);
        let mut cz: u64 = fp_mul(z, self.frequency);
        let mut cur_persistence: u64 = ONE;
        let mut value: u64 = POS_ZERO;
        let ghost sx = cx;
        let ghost sy = cy;
        let ghost sz = cz;
        let mut cur_octave: i32 = 0;
        while cur_octave < self.octave_count
            invariant
                0 <= cur_octave <= self.octave_count <= PERLIN_MAX_OCTAVE,
                (cx, cy, cz, cur_persistence, value) == perlin_octaves(
                    self.seed as int,
                    self.quality,
                    self.lacunarity,
                    self.persistence,
                    sx,
                    sy,
                    sz,
                    cur_octave as nat,
                ),
            decreases self.octave_count - cur_octave,
        {
            let nx: u64 = make_i32_range(cx);
            let ny: u64 = make_i32_range(cy);
            let nz: u64 = make_i32_range(cz);
            let seed: i64 = (self.seed as i64) + (cur_octave as i64);
            let signal: u64 = gradient_coherent_noise3d(nx, ny, nz, seed, self.quality);
            value = fp_add(value, fp_mul(signal, cur_persistence));
            cx = fp_mul(cx, self.lacunarity);
            cy = fp_mul(cy, self.lacunarity);
            cz = fp_mul(cz, self.lacunarity);
            cur_persistence = fp_mul(cur_persistence, self.persistence);
            cur_octave = cur_octave + 1;
        }
        value
    }
}

} // verus!
