//! Unsigned integer position on the 2D (x, y) plane.

use vstd::prelude::*;

use crate::num::{bits_as_i32, u32_to_i32};
use crate::point2i::Point2i;

verus! {

/// Unsigned integer position on the 2D (x, y) plane.
#[derive(Copy, Clone, Debug, Default, PartialEq, Eq, Structural)]
pub struct Point2u {
    /// Horizontal component.
    pub x: u32,
    /// Vertical component.
    pub y: u32,
}

impl Point2u {
    /// The origin `(0, 0)`.
    pub fn origin() -> (r: Point2u)
        ensures
            r.x == 0,
            r.y == 0,
    {
        Point2u { x: 0, y: 0 }
    }

    /// Constructs a point from its components.
    pub fn new(x: u32, y: u32) -> (r: Point2u)
        ensures
            r.x == x,
            r.y == y,
    {
        Point2u { x, y }
    }

    /// Reinterprets the components as signed, bit for bit: a component above
    /// `i32::MAX` wraps around to a negative value.
    pub fn to_i32(self) -> (r: Point2i)
        ensures
            r.x == bits_as_i32(self.x),
            r.y == bits_as_i32(self.y),
            self.x <= i32::MAX ==> r.x == self.x,
            self.y <= i32::MAX ==> r.y == self.y,
    {
        Point2i { x: u32_to_i32(self.x), y: u32_to_i32(self.y) }
    }
}

impl From<(u32, u32)> for Point2u {
    /// The point `(x, y)`.
    fn from(p: (u32, u32)) -> (r: Point2u)
        ensures
            r.x == p.0,
            r.y == p.1,
    {
        Point2u { x: p.0, y: p.1 }
    }
}

impl vstd::std_specs::convert::FromSpecImpl<(u32, u32)> for Point2u {
    open spec fn obeys_from_spec() -> bool {
        true
    }

    open spec fn from_spec(p: (u32, u32)) -> Point2u {
        Point2u { x: p.0, y: p.1 }
    }
}

impl From<[u32; 2]> for Point2u {
    /// The point `[x, y]`.
    fn from(p: [u32; 2]) -> (r: Point2u)
        ensures
            r.x == p[0],
            r.y == p[1],
    {
        Point2u { x: p[0], y: p[1] }
    }
}

impl vstd::std_specs::convert::FromSpecImpl<[u32; 2]> for Point2u {
    open spec fn obeys_from_spec() -> bool {
        true
    }

    open spec fn from_spec(p: [u32; 2]) -> Point2u {
        Point2u { x: p[0], y: p[1] }
    }
}

impl From<Point2u> for [u32; 2] {
    /// The components as `[x, y]`.
    fn from(p: Point2u) -> (r: [u32; 2])
        ensures
            r[0] == p.x,
            r[1] == p.y,
    {
        [p.x, p.y]
    }
}

impl vstd::std_specs::convert::FromSpecImpl<Point2u> for [u32; 2] {
    open spec fn obeys_from_spec() -> bool {
        true
    }

    open spec fn from_spec(p: Point2u) -> [u32; 2] {
        [p.x, p.y]
    }
}

impl From<Point2u> for mint::Point2<u32> {
    fn from(p: Point2u) -> (r: mint::Point2<u32>)
        ensures
            r.x == p.x,
            r.y == p.y,
    {
        mint::Point2 { x: p.x, y: p.y }
    }
}

impl vstd::std_specs::convert::FromSpecImpl<Point2u> for mint::Point2<u32> {
    open spec fn obeys_from_spec() -> bool {
        true
    }

    open spec fn from_spec(p: Point2u) -> mint::Point2<u32> {
        mint::Point2 { x: p.x, y: p.y }
    }
}

impl From<mint::Point2<u32>> for Point2u {
    fn from(p: mint::Point2<u32>) -> (r: Point2u)
        ensures
            r.x == p.x,
            r.y == p.y,
    {
        Point2u { x: p.x, y: p.y }
    }
}

impl vstd::std_specs::convert::FromSpecImpl<mint::Point2<u32>> for Point2u {
    open spec fn obeys_from_spec() -> bool {
        true
    }

    open spec fn from_spec(p: mint::Point2<u32>) -> Point2u {
        Point2u { x: p.x, y: p.y }
    }
}

} // verus!
