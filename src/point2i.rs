//! Integer position on the 2D (x, y) plane.

use vstd::prelude::*;

use crate::num::{bits_as_u32, fits_i32, i32_to_u32};
use crate::point2u::Point2u;
use crate::vector2i::Vector2i;

verus! {

/// Integer position on the 2D (x, y) plane. Subtracting two points gives
/// the vector between them; adding a vector to a point gives a point.
#[derive(Copy, Clone, Debug, Default, PartialEq, Eq, PartialOrd, Ord, Hash, Structural)]
pub struct Point2i {
    /// Horizontal component.
    pub x: i32,
    /// Vertical component.
    pub y: i32,
}

impl Point2i {
    /// The point with the given components, for use in contracts.
    pub open spec fn of(x: int, y: int) -> Point2i {
        Point2i { x: x as i32, y: y as i32 }
    }

    /// The origin `(0, 0)`.
    pub fn origin() -> (r: Point2i)
        ensures
            r.x == 0,
            r.y == 0,
    {
        Point2i { x: 0, y: 0 }
    }

    /// Constructs a point from its components.
    pub fn new(x: i32, y: i32) -> (r: Point2i)
        ensures
            r.x == x,
            r.y == y,
    {
        Point2i { x, y }
    }

    /// Reinterprets the components as unsigned, bit for bit: a negative
    /// component wraps around to a large unsigned value.
    pub fn to_u32(self) -> (r: Point2u)
        ensures
            r.x == bits_as_u32(self.x),
            r.y == bits_as_u32(self.y),
            self.x >= 0 ==> r.x == self.x,
            self.y >= 0 ==> r.y == self.y,
    {
        Point2u { x: i32_to_u32(self.x), y: i32_to_u32(self.y) }
    }
}

impl vstd::std_specs::ops::AddSpecImpl<Vector2i> for Point2i {
    open spec fn obeys_add_spec() -> bool {
        true
    }

    open spec fn add_req(self, rhs: Vector2i) -> bool {
        fits_i32(self.x + rhs.x) && fits_i32(self.y + rhs.y)
    }

    open spec fn add_spec(self, rhs: Vector2i) -> Point2i {
        Point2i::of(self.x + rhs.x, self.y + rhs.y)
    }
}

impl core::ops::Add<Vector2i> for Point2i {
    type Output = Point2i;

    /// Moves the point by `rhs`.
    fn add(self, rhs: Vector2i) -> (r: Point2i)
        ensures
            r.x == self.x + rhs.x,
            r.y == self.y + rhs.y,
    {
        Point2i { x: self.x + rhs.x, y: self.y + rhs.y }
    }
}

impl vstd::std_specs::ops::AddSpecImpl<[i32; 2]> for Point2i {
    open spec fn obeys_add_spec() -> bool {
        true
    }

    open spec fn add_req(self, rhs: [i32; 2]) -> bool {
        fits_i32(self.x + rhs[0]) && fits_i32(self.y + rhs[1])
    }

    open spec fn add_spec(self, rhs: [i32; 2]) -> Point2i {
        Point2i::of(self.x + rhs[0], self.y + rhs[1])
    }
}

impl core::ops::Add<[i32; 2]> for Point2i {
    type Output = Point2i;

    /// Moves the point by the vector `[x, y]`.
    fn add(self, rhs: [i32; 2]) -> (r: Point2i)
        ensures
            r.x == self.x + rhs[0],
            r.y == self.y + rhs[1],
    {
        Point2i { x: self.x + rhs[0], y: self.y + rhs[1] }
    }
}

impl vstd::std_specs::ops::AddSpecImpl<Point2i> for Vector2i {
    open spec fn obeys_add_spec() -> bool {
        true
    }

    open spec fn add_req(self, rhs: Point2i) -> bool {
        fits_i32(self.x + rhs.x) && fits_i32(self.y + rhs.y)
    }

    open spec fn add_spec(self, rhs: Point2i) -> Point2i {
        Point2i::of(self.x + rhs.x, self.y + rhs.y)
    }
}

impl core::ops::Add<Point2i> for Vector2i {
    type Output = Point2i;

    /// Moves `rhs` by this vector.
    fn add(self, rhs: Point2i) -> (r: Point2i)
        ensures
            r.x == self.x + rhs.x,
            r.y == self.y + rhs.y,
    {
        Point2i { x: self.x + rhs.x, y: self.y + rhs.y }
    }
}

impl vstd::std_specs::ops::AddSpecImpl<(i32, i32)> for Vector2i {
    open spec fn obeys_add_spec() -> bool {
        true
    }

    open spec fn add_req(self, rhs: (i32, i32)) -> bool {
        fits_i32(self.x + rhs.0) && fits_i32(self.y + rhs.1)
    }

    open spec fn add_spec(self, rhs: (i32, i32)) -> Point2i {
        Point2i::of(self.x + rhs.0, self.y + rhs.1)
    }
}

impl core::ops::Add<(i32, i32)> for Vector2i {
    type Output = Point2i;

    /// Moves the point `(x, y)` by this vector.
    fn add(self, rhs: (i32, i32)) -> (r: Point2i)
        ensures
            r.x == self.x + rhs.0,
            r.y == self.y + rhs.1,
    {
        Point2i { x: self.x + rhs.0, y: self.y + rhs.1 }
    }
}

impl vstd::std_specs::ops::SubSpecImpl<Point2i> for Point2i {
    open spec fn obeys_sub_spec() -> bool {
        true
    }

    open spec fn sub_req(self, rhs: Point2i) -> bool {
        fits_i32(self.x - rhs.x) && fits_i32(self.y - rhs.y)
    }

    open spec fn sub_spec(self, rhs: Point2i) -> Vector2i {
        Vector2i::of(self.x - rhs.x, self.y - rhs.y)
    }
}

impl core::ops::Sub<Point2i> for Point2i {
    type Output = Vector2i;

    /// The vector from `rhs` to this point.
    fn sub(self, rhs: Point2i) -> (r: Vector2i)
        ensures
            r.x == self.x - rhs.x,
            r.y == self.y - rhs.y,
    {
        Vector2i { x: self.x - rhs.x, y: self.y - rhs.y }
    }
}

impl vstd::std_specs::ops::SubSpecImpl<(i32, i32)> for Point2i {
    open spec fn obeys_sub_spec() -> bool {
        true
    }

    open spec fn sub_req(self, rhs: (i32, i32)) -> bool {
        fits_i32(self.x - rhs.0) && fits_i32(self.y - rhs.1)
    }

    open spec fn sub_spec(self, rhs: (i32, i32)) -> Vector2i {
        Vector2i::of(self.x - rhs.0, self.y - rhs.1)
    }
}

impl core::ops::Sub<(i32, i32)> for Point2i {
    type Output = Vector2i;

    /// The vector from the point `(x, y)` to this point.
    fn sub(self, rhs: (i32, i32)) -> (r: Vector2i)
        ensures
            r.x == self.x - rhs.0,
            r.y == self.y - rhs.1,
    {
        Vector2i { x: self.x - rhs.0, y: self.y - rhs.1 }
    }
}

impl vstd::std_specs::ops::SubSpecImpl<Vector2i> for Point2i {
    open spec fn obeys_sub_spec() -> bool {
        true
    }

    open spec fn sub_req(self, rhs: Vector2i) -> bool {
        fits_i32(self.x - rhs.x) && fits_i32(self.y - rhs.y)
    }

    open spec fn sub_spec(self, rhs: Vector2i) -> Point2i {
        Point2i::of(self.x - rhs.x, self.y - rhs.y)
    }
}

impl core::ops::Sub<Vector2i> for Point2i {
    type Output = Point2i;

    /// Moves the point back by `rhs`.
    fn sub(self, rhs: Vector2i) -> (r: Point2i)
        ensures
            r.x == self.x - rhs.x,
            r.y == self.y - rhs.y,
    {
        Point2i { x: self.x - rhs.x, y: self.y - rhs.y }
    }
}

impl vstd::std_specs::ops::SubSpecImpl<[i32; 2]> for Point2i {
    open spec fn obeys_sub_spec() -> bool {
        true
    }

    open spec fn sub_req(self, rhs: [i32; 2]) -> bool {
        fits_i32(self.x - rhs[0]) && fits_i32(self.y - rhs[1])
    }

    open spec fn sub_spec(self, rhs: [i32; 2]) -> Point2i {
        Point2i::of(self.x - rhs[0], self.y - rhs[1])
    }
}

impl core::ops::Sub<[i32; 2]> for Point2i {
    type Output = Point2i;

    /// Moves the point back by the vector `[x, y]`.
    fn sub(self, rhs: [i32; 2]) -> (r: Point2i)
        ensures
            r.x == self.x - rhs[0],
            r.y == self.y - rhs[1],
    {
        Point2i { x: self.x - rhs[0], y: self.y - rhs[1] }
    }
}

impl core::ops::AddAssign<Vector2i> for Point2i {
    /// Moves the point in place by `v`.
    fn add_assign(&mut self, v: Vector2i)
        requires
            fits_i32(old(self).x + v.x),
            fits_i32(old(self).y + v.y),
        ensures
            final(self).x == old(self).x + v.x,
            final(self).y == old(self).y + v.y,
    {
        *self = *self + v;
    }
}

impl core::ops::SubAssign<Vector2i> for Point2i {
    /// Moves the point in place back by `v`.
    fn sub_assign(&mut self, v: Vector2i)
        requires
            fits_i32(old(self).x - v.x),
            fits_i32(old(self).y - v.y),
        ensures
            final(self).x == old(self).x - v.x,
            final(self).y == old(self).y - v.y,
    {
        *self = *self - v;
    }
}

impl From<(i32, i32)> for Point2i {
    /// The point `(x, y)`.
    fn from(p: (i32, i32)) -> (r: Point2i)
        ensures
            r.x == p.0,
            r.y == p.1,
    {
        Point2i { x: p.0, y: p.1 }
    }
}

impl vstd::std_specs::convert::FromSpecImpl<(i32, i32)> for Point2i {
    open spec fn obeys_from_spec() -> bool {
        true
    }

    open spec fn from_spec(p: (i32, i32)) -> Point2i {
        Point2i { x: p.0, y: p.1 }
    }
}

impl From<Point2i> for (i32, i32) {
    /// The components as `(x, y)`.
    fn from(p: Point2i) -> (r: (i32, i32))
        ensures
            r.0 == p.x,
            r.1 == p.y,
    {
        (p.x, p.y)
    }
}

impl vstd::std_specs::convert::FromSpecImpl<Point2i> for (i32, i32) {
    open spec fn obeys_from_spec() -> bool {
        true
    }

    open spec fn from_spec(p: Point2i) -> (i32, i32) {
        (p.x, p.y)
    }
}

impl From<Point2i> for mint::Point2<i32> {
    fn from(p: Point2i) -> (r: mint::Point2<i32>)
        ensures
            r.x == p.x,
            r.y == p.y,
    {
        mint::Point2 { x: p.x, y: p.y }
    }
}

impl vstd::std_specs::convert::FromSpecImpl<Point2i> for mint::Point2<i32> {
    open spec fn obeys_from_spec() -> bool {
        true
    }

    open spec fn from_spec(p: Point2i) -> mint::Point2<i32> {
        mint::Point2 { x: p.x, y: p.y }
    }
}

impl From<mint::Point2<i32>> for Point2i {
    fn from(p: mint::Point2<i32>) -> (r: Point2i)
        ensures
            r.x == p.x,
            r.y == p.y,
    {
        Point2i { x: p.x, y: p.y }
    }
}

impl vstd::std_specs::convert::FromSpecImpl<mint::Point2<i32>> for Point2i {
    open spec fn obeys_from_spec() -> bool {
        true
    }

    open spec fn from_spec(p: mint::Point2<i32>) -> Point2i {
        Point2i { x: p.x, y: p.y }
    }
}

} // verus!
