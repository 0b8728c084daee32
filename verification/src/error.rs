//! The ways in which a desk operation can fail.

use vstd::prelude::*;

use crate::primitives::Centimeter;

verus! {

/// The configured limit that a requested height lies beyond.
#[derive(Debug, Copy, Clone, PartialEq, Eq, Structural)]
pub enum Bound {
    /// The request lies above the highest allowed height, held here.
    Above(Centimeter),
    /// The request lies below the lowest allowed height, held here.
    Below(Centimeter),
}

/// Why an operation of the desk did not succeed.
#[derive(Debug, Copy, Clone, PartialEq, Eq, Structural)]
pub enum DeskError {
    /// The sensor gave no usable echo, or the calibration cannot turn an
    /// echo into a height.
    Measurement,
    /// The requested height lies outside the configured travel of the desk.
    OutOfBounds(Bound),
    /// The pin assignment is ambiguous.
    Configuration,
    /// The calibration record could not be stored.
    Persistence,
}

} // verus!
