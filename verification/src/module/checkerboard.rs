//! Noise module that outputs a checkerboard pattern.

use vstd::prelude::*;
use crate::module::Module;
use crate::fp::intpart::{fp_floor_s, fp_to_i32_s, fp_floor, fp_to_i32, NEG_ONE, ONE};
use crate::noisegen::{make_i32_range_s, make_i32_range};

verus! {

/// Noise module that outputs a checkerboard pattern.
///
/// This noise module outputs unit-sized blocks of alternating values.
/// The values of these blocks alternate between -1.0 and +1.0.
///
/// This noise module is not really useful by itself, but it is often
/// used for debugging purposes.
#[derive(Clone)]
pub struct Checkerboard;

/// Parity of an integer: 0 for even, 1 for odd.
pub open spec fn parity(n: int) -> int {
    n % 2
}

fn parity_exec(n: i32) -> (r: u64)
    ensures
        r as int == parity(n as int),
{
    if n >= 0 {
        (n as u64) % 2
    } else {
        let pos: i32 = -(n + 1);
        let pm: u64 = (pos as u64) % 2;
        proof {
            let y = pos as int;
            vstd::arithmetic::div_mod::lemma_fundamental_div_mod(y, 2);
            vstd::arithmetic::div_mod::lemma_fundamental_div_mod_converse(
                n as int,
                2,
                -(y / 2) - 1,
                1 - (y % 2),
            );
        }
        1 - pm
    }
}

impl Module for Checkerboard {
    open spec fn wf(&self) -> bool {
        true
    }

    open spec fn value_at(&self, x: u64, y: u64, z: u64) -> u64 {
        let ix = fp_to_i32_s(fp_floor_s(make_i32_range_s(x))) as int;
        let iy = fp_to_i32_s(fp_floor_s(make_i32_range_s(y))) as int;
        let iz = fp_to_i32_s(fp_floor_s(make_i32_range_s(z))) as int;
        if (parity(ix) + parity(iy) + parity(iz)) % 2 == 1 {
            NEG_ONE
        } else {
            ONE
        }
    }

    fn get_value(&self, x: u64, y: u64, z: u64) -> (r: u64) {
        let ix: i32 = fp_to_i32(fp_floor(make_i32_range(x)));
        let iy: i32 = fp_to_i32(fp_floor(make_i32_range(y)));
        let iz: i32 = fp_to_i32(fp_floor(make_i32_range(z)));
        let px: u64 = parity_exec(ix);
        let py: u64 = parity_exec(iy);
        let pz: u64 = parity_exec(iz);
        if (px + py + pz) % 2 == 1 {
            NEG_ONE
        } else {
            ONE
        }
    }
}

/// The checkerboard field takes exactly the two values -1.0 and +1.0.
pub proof fn lemma_checkerboard_range(c: Checkerboard, x: u64, y: u64, z: u64)
    ensures
        c.value_at(x, y, z) == NEG_ONE || c.value_at(x, y, z) == ONE,
{
}

} // verus!
