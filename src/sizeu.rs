//! Unsigned integer size, e.g. the dimensions of a bitmap.

use vstd::prelude::*;

verus! {

/// An ordered pair of unsigned values, typically the width and height of a
/// rectangle.
#[derive(Copy, Clone, Debug, PartialEq, Eq, Structural)]
pub struct Sizeu {
    /// Horizontal component.
    pub width: u32,
    /// Vertical component.
    pub height: u32,
}

impl Sizeu {
    /// Constructs a size from its components.
    pub fn new(width: u32, height: u32) -> (r: Sizeu)
        ensures
            r.width == width,
            r.height == height,
    {
        Sizeu { width, height }
    }
}

impl From<u32> for Sizeu {
    /// A square size: both components equal `size`.
    fn from(size: u32) -> (r: Sizeu)
        ensures
            r.width == size,
            r.height == size,
    {
        Sizeu { width: size, height: size }
    }
}

impl vstd::std_specs::convert::FromSpecImpl<u32> for Sizeu {
    open spec fn obeys_from_spec() -> bool {
        true
    }

    open spec fn from_spec(size: u32) -> Sizeu {
        Sizeu { width: size, height: size }
    }
}

impl From<(u32, u32)> for Sizeu {
    /// Width from the first element, height from the second.
    fn from(pair: (u32, u32)) -> (r: Sizeu)
        ensures
            r.width == pair.0,
            r.height == pair.1,
    {
        Sizeu { width: pair.0, height: pair.1 }
    }
}

impl vstd::std_specs::convert::FromSpecImpl<(u32, u32)> for Sizeu {
    open spec fn obeys_from_spec() -> bool {
        true
    }

    open spec fn from_spec(pair: (u32, u32)) -> Sizeu {
        Sizeu { width: pair.0, height: pair.1 }
    }
}

} // verus!
