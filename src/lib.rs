//! Sine, cosine and tangent by range reduction.
//!
//! The floating-point evaluation lives with the callers; this crate holds the
//! decisions that the reduction makes on its way, proved against an integer
//! model of where an angle lies.
pub mod reduce;
