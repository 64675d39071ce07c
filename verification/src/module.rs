//! Noise modules: generators, modifiers and combiners that form an
//! evaluation tree. Every module is a pure function from a 3D coordinate
//! to a scalar, both given as binary64 bit patterns.

pub mod abs;
pub mod add;
pub mod billow;
pub mod blend;
pub mod checkerboard;
pub mod clamp;
pub mod constant;
pub mod curve;
pub mod cylinders;
pub mod displace;
pub mod exponent;
pub mod invert;
pub mod max;
pub mod min;
pub mod multiply;
pub mod perlin;
pub mod ridged_multi;
pub mod rotate_point;
pub mod turbulence;
pub mod voronoi;
pub mod power;
pub mod scale_bias;
pub mod scale_point;
pub mod select;
pub mod spheres;
pub mod terrace;
pub mod translate_point;

pub use self::abs::Abs;
pub use self::add::Add;
pub use self::billow::Billow;
pub use self::blend::Blend;
pub use self::checkerboard::Checkerboard;
pub use self::clamp::Clamp;
pub use self::constant::Constant;
pub use self::curve::ControlPoint;
pub use self::curve::Curve;
pub use self::cylinders::Cylinders;
pub use self::displace::Displace;
pub use self::exponent::Exponent;
pub use self::invert::Invert;
pub use self::max::Max;
pub use self::min::Min;
pub use self::multiply::Multiply;
pub use self::perlin::Perlin;
pub use self::ridged_multi::RidgedMulti;
pub use self::rotate_point::RotatePoint;
pub use self::turbulence::Turbulence;
pub use self::voronoi::Voronoi;
pub use self::power::Power;
pub use self::scale_bias::ScaleBias;
pub use self::scale_point::ScalePoint;
pub use self::select::Select;
pub use self::spheres::Spheres;
pub use self::terrace::Terrace;
pub use self::translate_point::TranslatePoint;

use vstd::prelude::*;

verus! {

/// A noise module: a deterministic scalar field over 3D space.
///
/// `value_at` is the mathematical model of the field; `get_value`
/// computes exactly that model, so evaluating a well-formed module twice
/// at one coordinate always yields bit-identical results.
pub trait Module: Sized {
    /// Well-formedness of this module's configuration, established by
    /// constructors and preserved by setters.
    spec fn wf(&self) -> bool;

    /// The scalar this module's field takes at `(x, y, z)`.
    spec fn value_at(&self, x: u64, y: u64, z: u64) -> u64;

    /// Evaluate the field at `(x, y, z)`.
    fn get_value(&self, x: u64, y: u64, z: u64) -> (r: u64)
        requires
            self.wf(),
        ensures
            r == self.value_at(x, y, z),
    ;
}

/// Evaluation is deterministic: equal configurations applied to equal
/// coordinates model equal results, and `get_value` returns exactly the
/// modeled value.
pub proof fn lemma_evaluation_deterministic<M: Module>(m1: M, m2: M, x: u64, y: u64, z: u64)
    requires
        m1 == m2,
    ensures
        m1.value_at(x, y, z) == m2.value_at(x, y, z),
{
}

} // verus!
