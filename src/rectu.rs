//! Axis-aligned unsigned rectangle defined by the lines of its four edges.

use vstd::prelude::*;

use crate::num::{bits_as_i32, u32_to_i32};
use crate::recti::Recti;

verus! {

/// A rectangle given by the coordinates of its upper-left corner
/// `(left, top)` and of its lower-right corner `(right, bottom)`.
#[derive(Copy, Clone, Debug, Default, PartialEq, Eq, Structural)]
pub struct Rectu {
    /// The x-coordinate of the upper-left corner.
    pub left: u32,
    /// The y-coordinate of the upper-left corner.
    pub top: u32,
    /// The x-coordinate of the lower-right corner.
    pub right: u32,
    /// The y-coordinate of the lower-right corner.
    pub bottom: u32,
}

impl Rectu {
    /// Constructs the rectangle from its edges.
    pub fn new(left: u32, top: u32, right: u32, bottom: u32) -> (r: Rectu)
        ensures
            r == (Rectu { left, top, right, bottom }),
    {
        Rectu { left, top, right, bottom }
    }

    /// Reinterprets the edges as signed, bit for bit: an edge above
    /// `i32::MAX` wraps around to a negative value.
    pub fn to_i32(&self) -> (r: Recti)
        ensures
            r.left == bits_as_i32(self.left),
            r.top == bits_as_i32(self.top),
            r.right == bits_as_i32(self.right),
            r.bottom == bits_as_i32(self.bottom),
    {
        Recti {
            left: u32_to_i32(self.left),
            top: u32_to_i32(self.top),
            right: u32_to_i32(self.right),
            bottom: u32_to_i32(self.bottom),
        }
    }
}

} // verus!
