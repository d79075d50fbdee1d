//! Beams and their supports.

use vstd::prelude::*;

verus! {

/// How a beam is held at a point. Where a beam has no support it is free.
#[derive(Clone, Copy, Debug, PartialEq, Eq, Structural)]
pub enum SupportType {
    /// The support resists both shear and bending moment.
    Fixed,
    /// The support resists shear, but lets the beam turn.
    Simple,
}

} // verus!
