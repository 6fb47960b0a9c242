//! Typed accuracy levels of the location service.

use vstd::prelude::*;

verus! {

/// How precisely a client asks to be located.
#[derive(Debug, Clone, Copy, PartialEq, Eq, Structural)]
pub enum Accuracy {
    /// Accuracy level unknown or unset.
    Unset,
    /// Country-level accuracy.
    Country,
    /// City-level accuracy.
    City,
    /// Neighborhood-level accuracy.
    Neighborhood,
    /// Street-level accuracy.
    Street,
    /// Exact accuracy, typically requiring a satellite receiver.
    Exact,
}

/// The level a code names; an unpublished code reads as unset.
pub open spec fn accuracy_of(code: u32) -> Accuracy {
    match code {
        1u32 => Accuracy::Country,
        2u32 => Accuracy::City,
        3u32 => Accuracy::Neighborhood,
        4u32 => Accuracy::Street,
        5u32 => Accuracy::Exact,
        _ => Accuracy::Unset,
    }
}

/// The published code of a level.
pub open spec fn accuracy_code(v: Accuracy) -> u32 {
    match v {
        Accuracy::Unset => 0,
        Accuracy::Country => 1,
        Accuracy::City => 2,
        Accuracy::Neighborhood => 3,
        Accuracy::Street => 4,
        Accuracy::Exact => 5,
    }
}

impl Accuracy {
    /// Types a raw code reading; an unpublished code reads as unset.
    pub fn from_code(code: u32) -> (r: Accuracy)
        ensures
            r == accuracy_of(code),
    {
        match code {
            1 => Accuracy::Country,
            2 => Accuracy::City,
            3 => Accuracy::Neighborhood,
            4 => Accuracy::Street,
            5 => Accuracy::Exact,
            _ => Accuracy::Unset,
        }
    }

    /// The published code of the level.
    pub fn level(&self) -> (r: u32)
        ensures
            r == accuracy_code(*self),
    {
        match self {
            Accuracy::Unset => 0,
            Accuracy::Country => 1,
            Accuracy::City => 2,
            Accuracy::Neighborhood => 3,
            Accuracy::Street => 4,
            Accuracy::Exact => 5,
        }
    }
}

} // verus!
