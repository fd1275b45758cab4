//! A three-component vector over a generic floating-point scalar.

pub mod scalar;
pub mod vector;
pub mod arith;
pub mod laws;
