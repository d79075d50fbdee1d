//! Verified building blocks for civil-engineering calculations.
//!
//! The crate holds the exact, integer side of the numerical routines: which
//! quadrature rule an order selects, where its coefficients lie in the tables,
//! what the tables contain, when two matrices can be multiplied, and how an
//! elimination is set up. Floating-point numbers appear as their bit patterns,
//! so that every statement about them is a statement about integers; forming
//! sums and products of them is left to the caller.

pub mod binary64;
pub mod calc;
pub mod quadrature;
pub mod structural;
pub mod units;
