//! Noise module that rotates the input coordinate around the origin.

use vstd::prelude::*;
use crate::module::Module;
use crate::fp::arith::{fp_add_s, fp_mul_s, fp_sub_s, fp_add, fp_mul, fp_sub};
use crate::fp::repr::{fp_neg_s, fp_neg, POS_ZERO};
use crate::fp::trig::{sin_cos_deg_s, sin_cos_deg};

verus! {

/// Default rotation angles, in degrees, for the [`RotatePoint`] noise
/// module.
pub const DEFAULT_ROTATE_X: u64 = POS_ZERO;

pub const DEFAULT_ROTATE_Y: u64 = POS_ZERO;

pub const DEFAULT_ROTATE_Z: u64 = POS_ZERO;

/// The 3-by-3 rotation matrix derived from Euler angles in degrees, in
/// row-major order. It is a pure function of the angles and is
/// recomputed on every angle change.
pub open spec fn rotation_matrix_s(ax: u64, ay: u64, az: u64) -> (
    u64,
    u64,
    u64,
    u64,
    u64,
    u64,
    u64,
    u64,
    u64,
) {
    let xs = sin_cos_deg_s(ax).0;
    let xc = sin_cos_deg_s(ax).1;
    let ys = sin_cos_deg_s(ay).0;
    let yc = sin_cos_deg_s(ay).1;
    let zs = sin_cos_deg_s(az).0;
    let zc = sin_cos_deg_s(az).1;
    (
        fp_add_s(fp_mul_s(fp_mul_s(ys, xs), zs), fp_mul_s(yc, zc)),
        fp_mul_s(xc, zs),
        fp_sub_s(fp_mul_s(ys, zc), fp_mul_s(fp_mul_s(yc, xs), zs)),
        fp_sub_s(fp_mul_s(fp_mul_s(ys, xs), zc), fp_mul_s(yc, zs)),
        fp_mul_s(xc, zc),
        fp_sub_s(fp_mul_s(fp_mul_s(fp_neg_s(yc), xs), zc), fp_mul_s(ys, zs)),
        fp_neg_s(fp_mul_s(ys, xc)),
        xs,
        fp_mul_s(yc, xc),
    )
}

/// Noise module that rotates the input value around the origin before
/// returning the output value from a source module. The rotation is
/// applied through a matrix derived once from the three Euler angles.
#[derive(Clone)]
pub struct RotatePoint<M: Module> {
    pub module: M,
    pub angle_x: u64,
    pub angle_y: u64,
    pub angle_z: u64,
    pub m00: u64,
    pub m01: u64,
    pub m02: u64,
    pub m10: u64,
    pub m11: u64,
    pub m12: u64,
    pub m20: u64,
    pub m21: u64,
    pub m22: u64,
}

/// The stored matrix agrees with the matrix derived from the angles.
pub open spec fn matrix_ok<M: Module>(s: RotatePoint<M>) -> bool {
    let m = rotation_matrix_s(s.angle_x, s.angle_y, s.angle_z);
    &&& s.m00 == m.0
    &&& s.m01 == m.1
    &&& s.m02 == m.2
    &&& s.m10 == m.3
    &&& s.m11 == m.4
    &&& s.m12 == m.5
    &&& s.m20 == m.6
    &&& s.m21 == m.7
    &&& s.m22 == m.8
}

impl<M: Module> RotatePoint<M> {
    /// Create a new `RotatePoint` noise module around the specified
    /// module, with all angles zero.
    pub fn new(module: M) -> (r: RotatePoint<M>)
        ensures
            r.module == module,
            r.angle_x == DEFAULT_ROTATE_X,
            r.angle_y == DEFAULT_ROTATE_Y,
            r.angle_z == DEFAULT_ROTATE_Z,
            matrix_ok(r),
    {
        let mut tmp = RotatePoint {
            module,
            angle_x: DEFAULT_ROTATE_X,
            angle_y: DEFAULT_ROTATE_Y,
            angle_z: DEFAULT_ROTATE_Z,
            m00: POS_ZERO,
            m01: POS_ZERO,
            m02: POS_ZERO,
            m10: POS_ZERO,
            m11: POS_ZERO,
            m12: POS_ZERO,
            m20: POS_ZERO,
            m21: POS_ZERO,
            m22: POS_ZERO,
        };
        tmp.update_matrix();
        tmp
    }

    /// Returns a reference to the source module used.
    pub fn module(&self) -> (r: &M)
        ensures
            r == &self.module,
    {
        &self.module
    }

    /// Returns a mutable reference to the source module used.
    pub fn module_mut(&mut self) -> (r: &mut M)
        ensures
            *r == old(self).module,
            final(self).angle_x == old(self).angle_x,
            final(self).angle_y == old(self).angle_y,
            final(self).angle_z == old(self).angle_z,
            matrix_ok(*old(self)) ==> matrix_ok(*final(self)),
    {
        &mut self.module
    }

    /// Returns the rotation angle around the `x` axis, in degrees.
    pub fn x_angle(&self) -> (r: u64)
        ensures
            r == self.angle_x,
    {
        self.angle_x
    }

    /// Returns the rotation angle around the `y` axis, in degrees.
    pub fn y_angle(&self) -> (r: u64)
        ensures
            r == self.angle_y,
    {
        self.angle_y
    }

    /// Returns the rotation angle around the `z` axis, in degrees.
    pub fn z_angle(&self) -> (r: u64)
        ensures
            r == self.angle_z,
    {
        self.angle_z
    }

    /// Set the source module to be used.
    pub fn set_module(&mut self, module: M)
        ensures
            final(self).module == module,
            final(self).angle_x == old(self).angle_x,
            final(self).angle_y == old(self).angle_y,
            final(self).angle_z == old(self).angle_z,
            matrix_ok(*old(self)) ==> matrix_ok(*final(self)),
    {
        self.module = module;
    }

    /// Sets the rotation angles around all three axes, in degrees, and
    /// rederives the rotation matrix.
    pub fn set_angles(&mut self, x: u64, y: u64, z: u64)
        ensures
            final(self).angle_x == x,
            final(self).angle_y == y,
            final(self).angle_z == z,
            final(self).module == old(self).module,
            matrix_ok(*final(self)),
    {
        self.angle_x = x;
        self.angle_y = y;
        self.angle_z = z;
        self.update_matrix();
    }

    /// Sets the rotation angle around the `x` axis, in degrees.
    pub fn set_x_angle(&mut self, x: u64)
        ensures
            final(self).angle_x == x,
            final(self).angle_y == old(self).angle_y,
            final(self).angle_z == old(self).angle_z,
            final(self).module == old(self).module,
            matrix_ok(*final(self)),
    {
        self.angle_x = x;
        self.update_matrix();
    }

    /// Sets the rotation angle around the `y` axis, in degrees.
    pub fn set_y_angle(&mut self, y: u64)
        ensures
            final(self).angle_y == y,
            final(self).angle_x == old(self).angle_x,
            final(self).angle_z == old(self).angle_z,
            final(self).module == old(self).module,
            matrix_ok(*final(self)),
    {
        self.angle_y = y;
        self.update_matrix();
    }

    /// Sets the rotation angle around the `z` axis, in degrees.
    pub fn set_z_angle(&mut self, z: u64)
        ensures
            final(self).angle_z == z,
            final(self).angle_x == old(self).angle_x,
            final(self).angle_y == old(self).angle_y,
            final(self).module == old(self).module,
            matrix_ok(*final(self)),
    {
        self.angle_z = z;
        self.update_matrix();
    }

    fn update_matrix(&mut self)
        ensures
            final(self).module == old(self).module,
            final(self).angle_x == old(self).angle_x,
            final(self).angle_y == old(self).angle_y,
            final(self).angle_z == old(self).angle_z,
            matrix_ok(*final(self)),
    {
        let (x_sin, x_cos): (u64, u64) = sin_cos_deg(self.angle_x);
        let (y_sin, y_cos): (u64, u64) = sin_cos_deg(self.angle_y);
        let (z_sin, z_cos): (u64, u64) = sin_cos_deg(self.angle_z);
        self.m00 = fp_add(fp_mul(fp_mul(y_sin, x_sin), z_sin), fp_mul(y_cos, z_cos));
        self.m01 = fp_mul(x_cos, z_sin);
        self.m02 = fp_sub(fp_mul(y_sin, z_cos), fp_mul(fp_mul(y_cos, x_sin), z_sin));
        self.m10 = fp_sub(fp_mul(fp_mul(y_sin, x_sin), z_cos), fp_mul(y_cos, z_sin));
        self.m11 = fp_mul(x_cos, z_cos);
        self.m12 = fp_sub(fp_mul(fp_mul(fp_neg(y_cos), x_sin), z_cos), fp_mul(y_sin, z_sin));
        self.m20 = fp_neg(fp_mul(y_sin, x_cos));
        self.m21 = x_sin;
        self.m22 = fp_mul(y_cos, x_cos);
    }
}

impl<M: Module> Module for RotatePoint<M> {
    open spec fn wf(&self) -> bool {
        self.module.wf() && matrix_ok(*self)
    }

    open spec fn value_at(&self, x: u64, y: u64, z: u64) -> u64 {
        let nx = fp_add_s(
            fp_add_s(fp_mul_s(self.m00, x), fp_mul_s(self.m01, y)),
            fp_mul_s(self.m02, z),
        );
        let ny = fp_add_s(
            fp_add_s(fp_mul_s(self.m10, x), fp_mul_s(self.m11, y)),
            fp_mul_s(self.m12, z),
        );
        let nz = fp_add_s(
            fp_add_s(fp_mul_s(self.m20, x), fp_mul_s(self.m21, y)),
            fp_mul_s(self.m22, z),
        );
        self.module.value_at(nx, ny, nz)
    }

    fn get_value(&self, x: u64, y: u64, z: u64) -> (r: u64) {
        let nx: u64 = fp_add(fp_add(fp_mul(self.m00, x), fp_mul(self.m01, y)), fp_mul(self.m02, z));
        let ny: u64 = fp_add(fp_add(fp_mul(self.m10, x), fp_mul(self.m11, y)), fp_mul(self.m12, z));
        let nz: u64 = fp_add(fp_add(fp_mul(self.m20, x), fp_mul(self.m21, y)), fp_mul(self.m22, z));
        self.module.get_value(nx, ny, nz)
    }
}

} // verus!
