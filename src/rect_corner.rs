//! Names for the four corners of an axis-aligned rectangle.

use vstd::prelude::*;

verus! {

/// One of the four corners of an axis-aligned rectangle.
#[derive(Copy, Clone, Debug, PartialEq, Eq, Structural)]
pub enum RectCorner {
    /// The `(left, top)` coordinate pair.
    TopLeft,
    /// The `(right, top)` coordinate pair.
    TopRight,
    /// The `(left, bottom)` coordinate pair.
    BottomLeft,
    /// The `(right, bottom)` coordinate pair.
    BottomRight,
}

} // verus!
