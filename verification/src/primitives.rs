//! The unit in which desk heights are expressed.

use vstd::prelude::*;

verus! {

/// A height in whole centimetres. A desk is never higher than 255 cm.
#[derive(Debug, Copy, Clone, PartialEq, Eq, Structural, PartialOrd, Ord, Hash)]
pub struct Centimeter(pub u8);

impl View for Centimeter {
    type V = int;

    open spec fn view(&self) -> int {
        self.0 as int
    }
}

/// The centimetre value nearest to `x`.
pub open spec fn nearest_height(x: int) -> int {
    if x < 0 {
        0
    } else if x > 255 {
        255
    } else {
        x
    }
}

impl Centimeter {
    /// The bare number of centimetres.
    pub fn into_inner(self) -> (cm: u8)
        ensures
            cm == self@,
    {
        self.0
    }

    /// The height `rhs` below this one, or zero where that would lie below
    /// the floor.
    pub fn sub(self, rhs: Centimeter) -> (lower: Centimeter)
        ensures
            lower@ == nearest_height(self@ - rhs@),
    {
        if self.0 >= rhs.0 {
            Centimeter(self.0 - rhs.0)
        } else {
            Centimeter(0)
        }
    }

    /// The height `rhs` above this one, or 255 cm where that would exceed
    /// the unit's range.
    pub fn add(self, rhs: Centimeter) -> (higher: Centimeter)
        ensures
            higher@ == nearest_height(self@ + rhs@),
    {
        if rhs.0 <= 255 - self.0 {
            Centimeter(self.0 + rhs.0)
        } else {
            Centimeter(255)
        }
    }
}

} // verus!
