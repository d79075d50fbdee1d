//! Numerical methods.

pub mod calculus;
pub mod gaussjordan;
pub mod linalg;
pub mod weight_sum;
