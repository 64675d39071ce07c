//! Noise module that outputs Voronoi cells.

use vstd::prelude::*;
use crate::module::Module;
use crate::fp::arith::{fp_add_s, fp_mul_s, fp_sub_s, fp_add, fp_mul, fp_sub};
use crate::fp::repr::{fp_lt_s, fp_lt, POS_ZERO};
use crate::fp::roots::{fp_sqrt_s, fp_sqrt};
use crate::fp::intpart::{
    fp_floor_s, fp_from_i64_s, fp_to_i32_s, fp_floor, fp_from_i64, fp_to_i32, ONE,
};
use crate::noisegen::{value_noise3d_s, value_noise3d_cell};

verus! {

/// Default displacement for the [`Voronoi`] noise module.
pub const DEFAULT_VORONOI_DISPLACEMENT: u64 = ONE;

/// Default frequency for the [`Voronoi`] noise module.
pub const DEFAULT_VORONOI_FREQUENCY: u64 = ONE;

/// Default seed for the [`Voronoi`] noise module.
pub const DEFAULT_VORONOI_SEED: i32 = 0;

/// The square root of three: the diagonal of the unit cube, which
/// normalises the distance term.
pub const SQRT_3: u64 = 0x3FFBB67AE8584CAA;

/// The initial minimum distance: the largest 32-bit integer as a scalar.
pub const DIST_START: u64 = 0x41DFFFFFFFC00000;

/// Noise module that outputs Voronoi cells: each unit cube of the
/// (frequency-scaled) lattice holds one pseudo-random seed point, and
/// every sample takes its value from the nearest seed point in the
/// surrounding 5 by 5 by 5 cell neighbourhood. An optional distance term
/// adds the normalised distance to that seed point.
#[derive(Clone)]
pub struct Voronoi {
    pub displacement: u64,
    pub enable_distance: bool,
    pub frequency: u64,
    pub seed: i32,
}

/// The state of the nearest-seed search after `k` of the 125 cells, in
/// the order that walks `x` fastest and `z` slowest: the least squared
/// distance so far and the seed point that attained it.
pub open spec fn voronoi_search(
    seed: int,
    xf: u64,
    yf: u64,
    zf: u64,
    xi: int,
    yi: int,
    zi: int,
    k: nat,
) -> (u64, u64, u64, u64)
    decreases k,
{
    if k == 0 {
        (DIST_START, POS_ZERO, POS_ZERO, POS_ZERO)
    } else {
        let p = voronoi_search(seed, xf, yf, zf, xi, yi, zi, (k - 1) as nat);
        let j = k - 1;
        let x_cur = xi + (j % 5) - 2;
        let y_cur = yi + ((j / 5) % 5) - 2;
        let z_cur = zi + (j / 25) - 2;
        let x_pos = fp_add_s(fp_from_i64_s(x_cur), value_noise3d_s(x_cur, y_cur, z_cur, seed));
        let y_pos = fp_add_s(fp_from_i64_s(y_cur), value_noise3d_s(x_cur, y_cur, z_cur, seed + 1));
        let z_pos = fp_add_s(fp_from_i64_s(z_cur), value_noise3d_s(x_cur, y_cur, z_cur, seed + 2));
        let x_dist = fp_sub_s(x_pos, xf);
        let y_dist = fp_sub_s(y_pos, yf);
        let z_dist = fp_sub_s(z_pos, zf);
        let dist = fp_add_s(
            fp_add_s(fp_mul_s(x_dist, x_dist), fp_mul_s(y_dist, y_dist)),
            fp_mul_s(z_dist, z_dist),
        );
        if fp_lt_s(dist, p.0) {
            (dist, x_pos, y_pos, z_pos)
        } else {
            p
        }
    }
}

/// The integer cell containing a frequency-scaled coordinate: the
/// truncated value, shifted down by one at or below zero.
pub open spec fn voronoi_cell_of(a: u64) -> int {
    if fp_lt_s(POS_ZERO, a) {
        fp_to_i32_s(a) as int
    } else {
        fp_to_i32_s(fp_sub_s(a, ONE)) as int
    }
}

impl Default for Voronoi {
    /// Create a new `Voronoi` noise module with default parameters.
    fn default() -> (r: Voronoi)
        ensures
            r == (Voronoi {
                displacement: DEFAULT_VORONOI_DISPLACEMENT,
                enable_distance: false,
                frequency: DEFAULT_VORONOI_FREQUENCY,
                seed: DEFAULT_VORONOI_SEED,
            }),
    {
        Voronoi {
            displacement: DEFAULT_VORONOI_DISPLACEMENT,
            enable_distance: false,
            frequency: DEFAULT_VORONOI_FREQUENCY,
            seed: DEFAULT_VORONOI_SEED,
        }
    }
}

impl Voronoi {
    /// Create a new `Voronoi` noise module with default parameters.
    pub fn new() -> (r: Voronoi)
        ensures
            r == (Voronoi {
                displacement: DEFAULT_VORONOI_DISPLACEMENT,
                enable_distance: false,
                frequency: DEFAULT_VORONOI_FREQUENCY,
                seed: DEFAULT_VORONOI_SEED,
            }),
    {
        Voronoi {
            displacement: DEFAULT_VORONOI_DISPLACEMENT,
            enable_distance: false,
            frequency: DEFAULT_VORONOI_FREQUENCY,
            seed: DEFAULT_VORONOI_SEED,
        }
    }

    /// Returns whether the distance to the nearest seed point is added
    /// to the output value.
    pub fn is_distance_enabled(&self) -> (r: bool)
        ensures
            r == self.enable_distance,
    {
        self.enable_distance
    }

    /// Returns the displacement value of the Voronoi cells.
    pub fn displacement(&self) -> (r: u64)
        ensures
            r == self.displacement,
    {
        self.displacement
    }

    /// Returns the frequency of the seed points.
    pub fn frequency(&self) -> (r: u64)
        ensures
            r == self.frequency,
    {
        self.frequency
    }

    /// Returns the seed value used by the Voronoi cells.
    pub fn seed(&self) -> (r: i32)
        ensures
            r == self.seed,
    {
        self.seed
    }

    /// Enables or disables the distance term.
    pub fn enable_distance(&mut self, enabled: bool)
        ensures
            *final(self) == (Voronoi { enable_distance: enabled, ..*old(self) }),
    {
        self.enable_distance = enabled;
    }

    /// Sets the displacement value of the Voronoi cells.
    pub fn set_displacement(&mut self, displacement: u64)
        ensures
            *final(self) == (Voronoi { displacement, ..*old(self) }),
    {
        self.displacement = displacement;
    }

    /// Sets the frequency of the seed points.
    pub fn set_frequency(&mut self, frequency: u64)
        ensures
            *final(self) == (Voronoi { frequency, ..*old(self) }),
    {
        self.frequency = frequency;
    }

    /// Sets the seed value used by the Voronoi cells.
    pub fn set_seed(&mut self, seed: i32)
        ensures
            *final(self) == (Voronoi { seed, ..*old(self) }),
    {
        self.seed = seed;
    }
}

impl Module for Voronoi {
    open spec fn wf(&self) -> bool {
        true
    }

    open spec fn value_at(&self, x: u64, y: u64, z: u64) -> u64 {
        let xf = fp_mul_s(x, self.frequency);
        let yf = fp_mul_s(y, self.frequency);
        let zf = fp_mul_s(z, self.frequency);
        let xi = voronoi_cell_of(xf);
        let yi = voronoi_cell_of(yf);
        let zi = voronoi_cell_of(zf);
        let sr = voronoi_search(self.seed as int, xf, yf, zf, xi, yi, zi, 125);
        let value = if self.enable_distance {
            let x_dist = fp_sub_s(sr.1, xf);
            let y_dist = fp_sub_s(sr.2, yf);
            let z_dist = fp_sub_s(sr.3, zf);
            let d2 = fp_add_s(
                fp_add_s(fp_mul_s(x_dist, x_dist), fp_mul_s(y_dist, y_dist)),
                fp_mul_s(z_dist, z_dist),
            );
            fp_sub_s(fp_mul_s(fp_sqrt_s(d2), SQRT_3), ONE)
        } else {
            POS_ZERO
        };
        fp_add_s(
            value,
            fp_mul_s(
                self.displacement,
                value_noise3d_s(
                    fp_to_i32_s(fp_floor_s(sr.1)) as int,
                    fp_to_i32_s(fp_floor_s(sr.2)) as int,
                    fp_to_i32_s(fp_floor_s(sr.3)) as int,
                    0,
                ),
            ),
        )
    }

    fn get_value(&self, x: u64, y: u64, z: u64) -> (r: u64) {
        let xf: u64 = fp_mul(x, self.frequency);
        let yf: u64 = fp_mul(y, self.frequency);
        let zf: u64 = fp_mul(z, self.frequency);
        let xi: i64 = voronoi_cell_exec(xf);
        let yi: i64 = voronoi_cell_exec(yf);
        let zi: i64 = voronoi_cell_exec(zf);
        let mut min_dist: u64 = DIST_START;
        let mut x_candidate: u64 = POS_ZERO;
        let mut y_candidate: u64 = POS_ZERO;
        let mut z_candidate: u64 = POS_ZERO;
        // Inside each unit cube, there is a seed point at a random
        // position. Walk the nearby cubes and find the seed point
        // closest to the sampled position.
        let mut k: usize = 0;
        while k < 125
            invariant
                0 <= k <= 125,
                -0x8000_0001 <= xi <= 0x8000_0000,
                -0x8000_0001 <= yi <= 0x8000_0000,
                -0x8000_0001 <= zi <= 0x8000_0000,
                (min_dist, x_candidate, y_candidate, z_candidate) == voronoi_search(
                    self.seed as int,
                    xf,
                    yf,
                    zf,
                    xi as int,
                    yi as int,
                    zi as int,
                    k as nat,
                ),
            decreases 125 - k,
        {
            let x_cur: i64 = xi + ((k % 5) as i64) - 2;
            let y_cur: i64 = yi + (((k / 5) % 5) as i64) - 2;
            let z_cur: i64 = zi + ((k / 25) as i64) - 2;
            let sd: i64 = self.seed as i64;
            let x_pos: u64 = fp_add(fp_from_i64(x_cur), value_noise3d_cell(x_cur, y_cur, z_cur, sd));
            let y_pos: u64 = fp_add(
                fp_from_i64(y_cur),
                value_noise3d_cell(x_cur, y_cur, z_cur, sd + 1),
            );
            let z_pos: u64 = fp_add(
                fp_from_i64(z_cur),
                value_noise3d_cell(x_cur, y_cur, z_cur, sd + 2),
            );
            let x_dist: u64 = fp_sub(x_pos, xf);
            let y_dist: u64 = fp_sub(y_pos, yf);
            let z_dist: u64 = fp_sub(z_pos, zf);
            let dist: u64 = fp_add(
                fp_add(fp_mul(x_dist, x_dist), fp_mul(y_dist, y_dist)),
                fp_mul(z_dist, z_dist),
            );
            if fp_lt(dist, min_dist) {
                // this seed point is closer than any found so far
                min_dist = dist;
                x_candidate = x_pos;
                y_candidate = y_pos;
                z_candidate = z_pos;
            }
            k = k + 1;
        }
        let value: u64 = if self.enable_distance {
            let x_dist: u64 = fp_sub(x_candidate, xf);
            let y_dist: u64 = fp_sub(y_candidate, yf);
            let z_dist: u64 = fp_sub(z_candidate, zf);
            let d2: u64 = fp_add(
                fp_add(fp_mul(x_dist, x_dist), fp_mul(y_dist, y_dist)),
                fp_mul(z_dist, z_dist),
            );
            fp_sub(fp_mul(fp_sqrt(d2), SQRT_3), ONE)
        } else {
            POS_ZERO
        };
        let dx: i32 = fp_to_i32(fp_floor(x_candidate));
        let dy: i32 = fp_to_i32(fp_floor(y_candidate));
        let dz: i32 = fp_to_i32(fp_floor(z_candidate));
        fp_add(
            value,
            fp_mul(
                self.displacement,
                crate::noisegen::value_noise3d(dx, dy, dz, 0),
            ),
        )
    }
}

/// The integer cell containing a frequency-scaled coordinate.
fn voronoi_cell_exec(a: u64) -> (r: i64)
    ensures
        r as int == voronoi_cell_of(a),
        -0x8000_0001 <= r <= 0x8000_0000,
{
    if fp_lt(POS_ZERO, a) {
        fp_to_i32(a) as i64
    } else {
        fp_to_i32(fp_sub(a, ONE)) as i64
    }
}

} // verus!
