//! Primary and secondary colours.
use vstd::prelude::*;

verus! {

#[derive(Clone, Copy, PartialEq, Eq, Debug, Structural)]
pub enum PrimaryColor {
    Red,
    Yellow,
    Blue,
}

#[derive(Clone, Copy, PartialEq, Eq, Debug, Structural)]
pub enum SecondaryColor {
    Orange,
    Green,
    Purple,
}

/// Mixes two primary colours. Every mix gives orange, whatever the inputs.
pub fn mix(c1: PrimaryColor, c2: PrimaryColor) -> (r: SecondaryColor)
    ensures
        r == SecondaryColor::Orange,
{
    SecondaryColor::Orange
}

} // verus!
