//! Noise module that outputs 3-dimensional ridged-multifractal noise.

use vstd::prelude::*;
use crate::module::Module;
use crate::fp::arith::{fp_add_s, fp_mul_s, fp_sub_s, fp_add, fp_mul, fp_sub};
use crate::fp::repr::{fp_abs_s, fp_lt_s, fp_abs, fp_lt, POS_ZERO};
use crate::fp::intpart::{NEG_ONE, ONE};
use crate::fp::poly::{fp_pow_s, fp_pow, TWO};
use crate::noisegen::{
    gradient_coherent_noise3d_s, make_i32_range_s, mask31_s, gradient_coherent_noise3d,
    make_i32_range, mask31, NoiseQuality,
};

verus! {

/// Default frequency for the [`RidgedMulti`] noise module.
pub const DEFAULT_RIDGED_FREQUENCY: u64 = ONE;

/// Default lacunarity for the [`RidgedMulti`] noise module.
pub const DEFAULT_RIDGED_LACUNARITY: u64 = TWO;

/// Default number of octaves for the [`RidgedMulti`] noise module.
pub const DEFAULT_RIDGED_OCTAVE_COUNT: i32 = 6;

/// Default noise quality for the [`RidgedMulti`] noise module.
pub const DEFAULT_RIDGED_QUALITY: NoiseQuality = NoiseQuality::Standard;

/// Default noise seed for the [`RidgedMulti`] noise module.
pub const DEFAULT_RIDGED_SEED: i32 = 0;

/// Maximum number of octaves for the [`RidgedMulti`] noise module.
pub const RIDGED_MAX_OCTAVE: i32 = 30;

/// The scalar 1.25, the final scaling of the ridged sum.
pub const RIDGED_SCALE: u64 = 0x3FF4000000000000;

/// Noise module that outputs 3-dimensional ridged-multifractal noise,
/// whose octaves feed the squared, inverted magnitude of each signal
/// back as the weight of the next, producing sharp ridges.
#[derive(Clone)]
pub struct RidgedMulti {
    pub frequency: u64,
    pub lacunarity: u64,
    pub quality: NoiseQuality,
    pub octave_count: i32,
    pub spectral_weights: Vec<u64>,
    pub seed: i32,
}

/// The frequency of octave `i`: the `i`-th rounded power of the
/// lacunarity.
pub open spec fn ridged_freq(lacunarity: u64, i: nat) -> u64
    decreases i,
{
    if i == 0 {
        ONE
    } else {
        fp_mul_s(ridged_freq(lacunarity, (i - 1) as nat), lacunarity)
    }
}

/// The spectral weight of octave `i`: its frequency raised to the
/// spectral exponent of -1.
pub open spec fn spectral_weight(lacunarity: u64, i: nat) -> u64 {
    fp_pow_s(ridged_freq(lacunarity, i), NEG_ONE)
}

/// The table of 30 spectral weights derived from a lacunarity.
pub open spec fn spectral_weights_ok(weights: Seq<u64>, lacunarity: u64) -> bool {
    &&& weights.len() == 30
    &&& forall|i: int| 0 <= i < 30 ==> weights[i] == spectral_weight(lacunarity, i as nat)
}

fn calc_spectral_weights(lacunarity: u64) -> (r: Vec<u64>)
    ensures
        spectral_weights_ok(r@, lacunarity),
{
    let mut weights: Vec<u64> = Vec::new();
    let mut frequency: u64 = ONE;
    let mut i: usize = 0;
    while i < 30
        invariant
            i <= 30,
            weights@.len() == i,
            frequency == ridged_freq(lacunarity, i as nat),
            forall|j: int| 0 <= j < i ==> weights@[j] == spectral_weight(lacunarity, j as nat),
        decreases 30 - i,
    {
        weights.push(fp_pow(frequency, NEG_ONE));
        frequency = fp_mul(frequency, lacunarity);
        i = i + 1;
    }
    weights
}

/// The evaluation state after `n` octaves: the scaled coordinate, the
/// feedback weight, and the accumulated value.
pub open spec fn ridged_octaves(m: RidgedMulti, x: u64, y: u64, z: u64, n: nat) -> (
    u64,
    u64,
    u64,
    u64,
    u64,
)
    decreases n,
{
    if n == 0 {
        (x, y, z, ONE, POS_ZERO)
    } else {
        let p = ridged_octaves(m, x, y, z, (n - 1) as nat);
        let nx = make_i32_range_s(p.0);
        let ny = make_i32_range_s(p.1);
        let nz = make_i32_range_s(p.2);
        let sd = mask31_s(m.seed + (n - 1));
        let sig0 = gradient_coherent_noise3d_s(nx, ny, nz, sd, m.quality);
        let sig1 = fp_sub_s(ONE, fp_abs_s(sig0));
        let sig2 = fp_mul_s(sig1, sig1);
        let sig3 = fp_mul_s(sig2, p.3);
        let w0 = fp_mul_s(sig3, TWO);
        let weight = if fp_lt_s(ONE, w0) {
            ONE
        } else if fp_lt_s(w0, POS_ZERO) {
            POS_ZERO
        } else {
            w0
        };
        let value = fp_add_s(p.4, fp_mul_s(sig3, m.spectral_weights@[n - 1]));
        (
            fp_mul_s(p.0, m.lacunarity),
            fp_mul_s(p.1, m.lacunarity),
            fp_mul_s(p.2, m.lacunarity),
            weight,
            value,
        )
    }
}

impl Default for RidgedMulti {
    /// Create a new `RidgedMulti` noise module with default parameters.
    fn default() -> (r: RidgedMulti)
        ensures
            r.frequency == DEFAULT_RIDGED_FREQUENCY,
            r.lacunarity == DEFAULT_RIDGED_LACUNARITY,
            r.quality == DEFAULT_RIDGED_QUALITY,
            r.octave_count == DEFAULT_RIDGED_OCTAVE_COUNT,
            r.seed == DEFAULT_RIDGED_SEED,
            spectral_weights_ok(r.spectral_weights@, r.lacunarity),
    {
        let spectral_weights: Vec<u64> = calc_spectral_weights(DEFAULT_RIDGED_LACUNARITY);
        RidgedMulti {
            frequency: DEFAULT_RIDGED_FREQUENCY,
            lacunarity: DEFAULT_RIDGED_LACUNARITY,
            quality: DEFAULT_RIDGED_QUALITY,
            octave_count: DEFAULT_RIDGED_OCTAVE_COUNT,
            spectral_weights,
            seed: DEFAULT_RIDGED_SEED,
        }
    }
}

impl RidgedMulti {
    /// Create a new `RidgedMulti` noise module with default parameters.
    pub fn new() -> (r: RidgedMulti)
        ensures
            r.frequency == DEFAULT_RIDGED_FREQUENCY,
            r.lacunarity == DEFAULT_RIDGED_LACUNARITY,
            r.quality == DEFAULT_RIDGED_QUALITY,
            r.octave_count == DEFAULT_RIDGED_OCTAVE_COUNT,
            r.seed == DEFAULT_RIDGED_SEED,
            spectral_weights_ok(r.spectral_weights@, r.lacunarity),
    {
        let spectral_weights: Vec<u64> = calc_spectral_weights(DEFAULT_RIDGED_LACUNARITY);
        RidgedMulti {
            frequency: DEFAULT_RIDGED_FREQUENCY,
            lacunarity: DEFAULT_RIDGED_LACUNARITY,
            quality: DEFAULT_RIDGED_QUALITY,
            octave_count: DEFAULT_RIDGED_OCTAVE_COUNT,
            spectral_weights,
            seed: DEFAULT_RIDGED_SEED,
        }
    }

    /// Returns the frequency of the first octave.
    pub fn frequency(&self) -> (r: u64)
        ensures
            r == self.frequency,
    {
        self.frequency
    }

    /// Returns the lacunarity of the ridged-multifractal noise: the
    /// frequency multiplier between successive octaves.
    pub fn lacunarity(&self) -> (r: u64)
        ensures
            r == self.lacunarity,
    {
        self.lacunarity
    }

    /// Returns the quality of the ridged-multifractal noise.
    pub fn quality(&self) -> (r: NoiseQuality)
        ensures
            r == self.quality,
    {
        self.quality
    }

    /// Returns the number of octaves that generate the noise.
    pub fn octave_count(&self) -> (r: i32)
        ensures
            r == self.octave_count,
    {
        self.octave_count
    }

    /// Returns the seed value used by the ridged-multifractal function.
    pub fn seed(&self) -> (r: i32)
        ensures
            r == self.seed,
    {
        self.seed
    }

    /// Sets the frequency of the first octave.
    pub fn set_frequency(&mut self, frequency: u64)
        ensures
            *final(self) == (RidgedMulti { frequency, ..*old(self) }),
    {
        self.frequency = frequency;
    }

    /// Sets the lacunarity of the ridged-multifractal noise and
    /// recomputes the derived spectral-weight table.
    pub fn set_lacunarity(&mut self, lacunarity: u64)
        ensures
            final(self).lacunarity == lacunarity,
            spectral_weights_ok(final(self).spectral_weights@, lacunarity),
            final(self).frequency == old(self).frequency,
            final(self).quality == old(self).quality,
            final(self).octave_count == old(self).octave_count,
            final(self).seed == old(self).seed,
    {
        self.lacunarity = lacunarity;
        let weights: Vec<u64> = calc_spectral_weights(lacunarity);
        self.spectral_weights = weights;
    }

    /// Sets the quality of the ridged-multifractal noise.
    pub fn set_quality(&mut self, quality: NoiseQuality)
        ensures
            *final(self) == (RidgedMulti { quality, ..*old(self) }),
    {
        self.quality = quality;
    }

    /// Sets the number of octaves that generate the noise, which must
    /// lie between 1 and [`RIDGED_MAX_OCTAVE`] inclusive.
    pub fn set_octave_count(&mut self, octave_count: i32)
        requires
            1 <= octave_count <= RIDGED_MAX_OCTAVE,
        ensures
            *final(self) == (RidgedMulti { octave_count, ..*old(self) }),
    {
        self.octave_count = octave_count;
    }

    /// Sets the seed value used by the ridged-multifractal function.
    pub fn set_seed(&mut self, seed: i32)
        ensures
            *final(self) == (RidgedMulti { seed, ..*old(self) }),
    {
        self.seed = seed;
    }
}

impl Module for RidgedMulti {
    open spec fn wf(&self) -> bool {
        &&& 1 <= self.octave_count <= RIDGED_MAX_OCTAVE
        &&& spectral_weights_ok(self.spectral_weights@, self.lacunarity)
    }

    open spec fn value_at(&self, x: u64, y: u64, z: u64) -> u64 {
        let acc = ridged_octaves(
            *self,
            fp_mul_s(x, self.frequency),
            fp_mul_s(y, self.frequency),
            fp_mul_s(z, self.frequency),
            self.octave_count as nat,
        ).4;
        fp_sub_s(fp_mul_s(acc, RIDGED_SCALE), ONE)
    }

    #[verifier::rlimit(100)]
    #[verifier::spinoff_prover]
    fn get_value(&self, x: u64, y: u64, z: u64) -> (r: u64) {
        let mut cx: u64 = fp_mul(x, self.frequency);
        let mut cy: u64 = fp_mul(y, self.frequency);
        let mut cz: u64 = fp_mul(z, self.frequency);
        let mut weight: u64 = ONE;
        let mut value: u64 = POS_ZERO;
        let ghost sx = cx;
        let ghost sy = cy;
        let ghost sz = cz;
        let mut cur_octave: i32 = 0;
        while cur_octave < self.octave_count
            invariant
                0 <= cur_octave <= self.octave_count <= RIDGED_MAX_OCTAVE,
                self.spectral_weights@.len() == 30,
                (cx, cy, cz, weight, value) == ridged_octaves(
                    *self,
                    sx,
                    sy,
                    sz,
                    cur_octave as nat,
                ),
            decreases self.octave_count - cur_octave,
        {
            let nx: u64 = make_i32_range(cx);
            let ny: u64 = make_i32_range(cy);
            let nz: u64 = make_i32_range(cz);
            let seed: i64 = mask31((self.seed as i64) + (cur_octave as i64));
            let sig0: u64 = gradient_coherent_noise3d(nx, ny, nz, seed, self.quality);
            let sig1: u64 = fp_sub(ONE, fp_abs(sig0));
            let sig2: u64 = fp_mul(sig1, sig1);
            let sig3: u64 = fp_mul(sig2, weight);
            let w0: u64 = fp_mul(sig3, TWO);
            weight = if fp_lt(ONE, w0) {
                ONE
            } else if fp_lt(w0, POS_ZERO) {
                POS_ZERO
            } else {
                w0
            };
            let sw: u64 = self.spectral_weights[cur_octave as usize];
            value = fp_add(value, fp_mul(sig3, sw));
            cx = fp_mul(cx, self.lacunarity);
            cy = fp_mul(cy, self.lacunarity);
            cz = fp_mul(cz, self.lacunarity);
            cur_octave = cur_octave + 1;
        }
        fp_sub(fp_mul(value, RIDGED_SCALE), ONE)
    }
}

} // verus!
