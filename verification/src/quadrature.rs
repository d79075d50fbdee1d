//! What every quadrature rule of the library is made of.

use vstd::prelude::*;
use crate::binary64::{is_finite, is_positive, rank, ONE};

verus! {

/// One sample of a quadrature rule on the reference interval from -1 to 1:
/// the point at which the integrand is evaluated and the weight that its value
/// there gets. Both are bit patterns of 64-bit binary floating-point numbers.
#[derive(Clone, Copy, Debug, PartialEq, Eq, Structural)]
pub struct Node {
    pub abscissa: u64,
    pub weight: u64,
}

impl Node {
    /// The abscissa is a number of the reference interval and the weight is
    /// finite and greater than zero.
    pub open spec fn well_formed(self) -> bool {
        &&& is_finite(self.abscissa)
        &&& -(ONE as int) <= rank(self.abscissa) <= ONE
        &&& is_positive(self.weight)
    }
}

} // verus!
