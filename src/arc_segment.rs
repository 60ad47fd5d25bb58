//! The two choices that pick one of the four elliptical arcs through a
//! pair of points with given radii.

use vstd::prelude::*;

verus! {

/// The direction in which an elliptical arc is drawn.
#[derive(Copy, Clone, Debug, PartialEq, Eq, Structural)]
pub enum SweepDirection {
    /// Drawn in the counterclockwise (negative-angle) direction.
    CounterClockwise,
    /// Drawn in the clockwise (positive-angle) direction.
    Clockwise,
}

impl Default for SweepDirection {
    /// Counterclockwise.
    fn default() -> (r: SweepDirection)
        ensures
            r == SweepDirection::CounterClockwise,
    {
        SweepDirection::CounterClockwise
    }
}

/// Whether an arc sweeps more or less than 180 degrees.
#[derive(Copy, Clone, Debug, PartialEq, Eq, Structural)]
pub enum ArcSize {
    /// The arc sweeps 180 degrees or less.
    Small,
    /// The arc sweeps 180 degrees or more.
    Large,
}

impl Default for ArcSize {
    /// Small.
    fn default() -> (r: ArcSize)
        ensures
            r == ArcSize::Small,
    {
        ArcSize::Small
    }
}

} // verus!
