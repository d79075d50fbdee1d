//! Units of measurement, and integration of a given order.

pub mod calculus;
