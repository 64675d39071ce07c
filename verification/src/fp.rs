//! Software implementation of IEEE 754 binary64 arithmetic on raw `u64`
//! bit patterns, written as verified integer code.
//!
//! Every operation is a pure function of its argument bits, so evaluation
//! built on these operations is deterministic by construction. Results of
//! the rounded operations follow round-to-nearest-even; every operation
//! that produces a NaN produces the canonical quiet NaN.

pub mod repr;
pub mod round;
pub mod arith;
pub mod intpart;
pub mod roots;
pub mod poly;
pub mod trig;
