//! Integer displacement on the 2D (x, y) plane.

use vstd::prelude::*;

use crate::num::{abs_int, bits_as_u32, div_i32, fits_i32, i32_to_u32, trunc_div};
use crate::sizeu::Sizeu;

verus! {

/// Integer displacement on the 2D (x, y) plane.
#[derive(Copy, Clone, Debug, Default, PartialEq, Eq, Structural)]
pub struct Vector2i {
    /// Horizontal component.
    pub x: i32,
    /// Vertical component.
    pub y: i32,
}

impl Vector2i {
    /// The vector with the given components, for use in contracts.
    pub open spec fn of(x: int, y: int) -> Vector2i {
        Vector2i { x: x as i32, y: y as i32 }
    }

    /// The zero vector: adding it changes nothing.
    pub fn zero() -> (r: Vector2i)
        ensures
            r.x == 0,
            r.y == 0,
    {
        Vector2i { x: 0, y: 0 }
    }

    /// Constructs a vector from its components.
    pub fn new(x: i32, y: i32) -> (r: Vector2i)
        ensures
            r.x == x,
            r.y == y,
    {
        Vector2i { x, y }
    }

    /// Reinterprets the components as a size, bit for bit: a negative
    /// component wraps around to a large unsigned value.
    pub fn as_size(self) -> (r: Sizeu)
        ensures
            r.width == bits_as_u32(self.x),
            r.height == bits_as_u32(self.y),
            self.x >= 0 ==> r.width == self.x,
            self.y >= 0 ==> r.height == self.y,
    {
        Sizeu { width: i32_to_u32(self.x), height: i32_to_u32(self.y) }
    }

    /// The component-wise absolute value.
    pub fn abs(self) -> (r: Vector2i)
        requires
            self.x != i32::MIN,
            self.y != i32::MIN,
        ensures
            r.x == abs_int(self.x as int),
            r.y == abs_int(self.y as int),
    {
        let x = if self.x < 0 { -self.x } else { self.x };
        let y = if self.y < 0 { -self.y } else { self.y };
        Vector2i { x, y }
    }
}

impl vstd::std_specs::ops::AddSpecImpl<Vector2i> for Vector2i {
    open spec fn obeys_add_spec() -> bool {
        true
    }

    open spec fn add_req(self, rhs: Vector2i) -> bool {
        fits_i32(self.x + rhs.x) && fits_i32(self.y + rhs.y)
    }

    open spec fn add_spec(self, rhs: Vector2i) -> Vector2i {
        Vector2i::of(self.x + rhs.x, self.y + rhs.y)
    }
}

impl core::ops::Add<Vector2i> for Vector2i {
    type Output = Vector2i;

    fn add(self, rhs: Vector2i) -> (r: Vector2i)
        ensures
            r.x == self.x + rhs.x,
            r.y == self.y + rhs.y,
    {
        Vector2i { x: self.x + rhs.x, y: self.y + rhs.y }
    }
}

impl vstd::std_specs::ops::AddSpecImpl<[i32; 2]> for Vector2i {
    open spec fn obeys_add_spec() -> bool {
        true
    }

    open spec fn add_req(self, rhs: [i32; 2]) -> bool {
        fits_i32(self.x + rhs[0]) && fits_i32(self.y + rhs[1])
    }

    open spec fn add_spec(self, rhs: [i32; 2]) -> Vector2i {
        Vector2i::of(self.x + rhs[0], self.y + rhs[1])
    }
}

impl core::ops::Add<[i32; 2]> for Vector2i {
    type Output = Vector2i;

    /// Adds the vector `[x, y]`.
    fn add(self, rhs: [i32; 2]) -> (r: Vector2i)
        ensures
            r.x == self.x + rhs[0],
            r.y == self.y + rhs[1],
    {
        Vector2i { x: self.x + rhs[0], y: self.y + rhs[1] }
    }
}

impl vstd::std_specs::ops::SubSpecImpl<Vector2i> for Vector2i {
    open spec fn obeys_sub_spec() -> bool {
        true
    }

    open spec fn sub_req(self, rhs: Vector2i) -> bool {
        fits_i32(self.x - rhs.x) && fits_i32(self.y - rhs.y)
    }

    open spec fn sub_spec(self, rhs: Vector2i) -> Vector2i {
        Vector2i::of(self.x - rhs.x, self.y - rhs.y)
    }
}

impl core::ops::Sub<Vector2i> for Vector2i {
    type Output = Vector2i;

    fn sub(self, rhs: Vector2i) -> (r: Vector2i)
        ensures
            r.x == self.x - rhs.x,
            r.y == self.y - rhs.y,
    {
        Vector2i { x: self.x - rhs.x, y: self.y - rhs.y }
    }
}

impl vstd::std_specs::ops::SubSpecImpl<[i32; 2]> for Vector2i {
    open spec fn obeys_sub_spec() -> bool {
        true
    }

    open spec fn sub_req(self, rhs: [i32; 2]) -> bool {
        fits_i32(self.x - rhs[0]) && fits_i32(self.y - rhs[1])
    }

    open spec fn sub_spec(self, rhs: [i32; 2]) -> Vector2i {
        Vector2i::of(self.x - rhs[0], self.y - rhs[1])
    }
}

impl core::ops::Sub<[i32; 2]> for Vector2i {
    type Output = Vector2i;

    /// Subtracts the vector `[x, y]`.
    fn sub(self, rhs: [i32; 2]) -> (r: Vector2i)
        ensures
            r.x == self.x - rhs[0],
            r.y == self.y - rhs[1],
    {
        Vector2i { x: self.x - rhs[0], y: self.y - rhs[1] }
    }
}

impl vstd::std_specs::ops::NegSpecImpl for Vector2i {
    open spec fn obeys_neg_spec() -> bool {
        true
    }

    open spec fn neg_req(self) -> bool {
        self.x != i32::MIN && self.y != i32::MIN
    }

    open spec fn neg_spec(self) -> Vector2i {
        Vector2i::of(-self.x, -self.y)
    }
}

impl core::ops::Neg for Vector2i {
    type Output = Vector2i;

    fn neg(self) -> (r: Vector2i)
        ensures
            r.x == -self.x,
            r.y == -self.y,
    {
        Vector2i { x: -self.x, y: -self.y }
    }
}

impl vstd::std_specs::ops::MulSpecImpl<i32> for Vector2i {
    open spec fn obeys_mul_spec() -> bool {
        true
    }

    open spec fn mul_req(self, rhs: i32) -> bool {
        fits_i32(self.x * rhs) && fits_i32(self.y * rhs)
    }

    open spec fn mul_spec(self, rhs: i32) -> Vector2i {
        Vector2i::of(self.x * rhs, self.y * rhs)
    }
}

impl core::ops::Mul<i32> for Vector2i {
    type Output = Vector2i;

    /// Scales both components by `rhs`.
    fn mul(self, rhs: i32) -> (r: Vector2i)
        ensures
            r.x == self.x * rhs,
            r.y == self.y * rhs,
    {
        Vector2i { x: self.x * rhs, y: self.y * rhs }
    }
}

impl vstd::std_specs::ops::MulSpecImpl<Vector2i> for i32 {
    open spec fn obeys_mul_spec() -> bool {
        true
    }

    open spec fn mul_req(self, rhs: Vector2i) -> bool {
        fits_i32(self * rhs.x) && fits_i32(self * rhs.y)
    }

    open spec fn mul_spec(self, rhs: Vector2i) -> Vector2i {
        Vector2i::of(self * rhs.x, self * rhs.y)
    }
}

impl core::ops::Mul<Vector2i> for i32 {
    type Output = Vector2i;

    /// Scales both components of `rhs` by this value.
    fn mul(self, rhs: Vector2i) -> (r: Vector2i)
        ensures
            r.x == self * rhs.x,
            r.y == self * rhs.y,
    {
        Vector2i { x: self * rhs.x, y: self * rhs.y }
    }
}

impl vstd::std_specs::ops::DivSpecImpl<i32> for Vector2i {
    open spec fn obeys_div_spec() -> bool {
        true
    }

    open spec fn div_req(self, rhs: i32) -> bool {
        rhs != 0 && !(rhs == -1 && (self.x == i32::MIN || self.y == i32::MIN))
    }

    open spec fn div_spec(self, rhs: i32) -> Vector2i {
        Vector2i::of(trunc_div(self.x as int, rhs as int), trunc_div(self.y as int, rhs as int))
    }
}

impl core::ops::Div<i32> for Vector2i {
    type Output = Vector2i;

    /// Divides both components by `rhs`, rounding toward zero.
    fn div(self, rhs: i32) -> (r: Vector2i)
        ensures
            r.x == trunc_div(self.x as int, rhs as int),
            r.y == trunc_div(self.y as int, rhs as int),
    {
        Vector2i { x: div_i32(self.x, rhs), y: div_i32(self.y, rhs) }
    }
}

impl vstd::std_specs::ops::DivSpecImpl<Vector2i> for i32 {
    open spec fn obeys_div_spec() -> bool {
        true
    }

    open spec fn div_req(self, rhs: Vector2i) -> bool {
        rhs.x != 0 && rhs.y != 0 && !(self == i32::MIN && (rhs.x == -1 || rhs.y == -1))
    }

    open spec fn div_spec(self, rhs: Vector2i) -> Vector2i {
        Vector2i::of(trunc_div(self as int, rhs.x as int), trunc_div(self as int, rhs.y as int))
    }
}

impl core::ops::Div<Vector2i> for i32 {
    type Output = Vector2i;

    /// Divides this value by each component of `rhs`, rounding toward zero.
    fn div(self, rhs: Vector2i) -> (r: Vector2i)
        ensures
            r.x == trunc_div(self as int, rhs.x as int),
            r.y == trunc_div(self as int, rhs.y as int),
    {
        Vector2i { x: div_i32(self, rhs.x), y: div_i32(self, rhs.y) }
    }
}

impl core::ops::AddAssign<Vector2i> for Vector2i {
    fn add_assign(&mut self, v: Vector2i)
        requires
            fits_i32(old(self).x + v.x),
            fits_i32(old(self).y + v.y),
        ensures
            final(self).x == old(self).x + v.x,
            final(self).y == old(self).y + v.y,
    {
        *self = *self + v;
    }
}

impl core::ops::SubAssign<Vector2i> for Vector2i {
    fn sub_assign(&mut self, v: Vector2i)
        requires
            fits_i32(old(self).x - v.x),
            fits_i32(old(self).y - v.y),
        ensures
            final(self).x == old(self).x - v.x,
            final(self).y == old(self).y - v.y,
    {
        *self = *self - v;
    }
}

impl core::ops::MulAssign<i32> for Vector2i {
    fn mul_assign(&mut self, k: i32)
        requires
            fits_i32(old(self).x * k),
            fits_i32(old(self).y * k),
        ensures
            final(self).x == old(self).x * k,
            final(self).y == old(self).y * k,
    {
        *self = *self * k;
    }
}

impl core::ops::DivAssign<i32> for Vector2i {
    /// Divides both components in place by `k`, rounding toward zero.
    fn div_assign(&mut self, k: i32)
        requires
            k != 0,
            !(k == -1 && (old(self).x == i32::MIN || old(self).y == i32::MIN)),
        ensures
            final(self).x == trunc_div(old(self).x as int, k as int),
            final(self).y == trunc_div(old(self).y as int, k as int),
    {
        *self = *self / k;
    }
}

impl From<[i32; 2]> for Vector2i {
    /// The vector `[x, y]`.
    fn from(v: [i32; 2]) -> (r: Vector2i)
        ensures
            r.x == v[0],
            r.y == v[1],
    {
        Vector2i { x: v[0], y: v[1] }
    }
}

impl vstd::std_specs::convert::FromSpecImpl<[i32; 2]> for Vector2i {
    open spec fn obeys_from_spec() -> bool {
        true
    }

    open spec fn from_spec(v: [i32; 2]) -> Vector2i {
        Vector2i { x: v[0], y: v[1] }
    }
}

impl From<Vector2i> for [i32; 2] {
    /// The components as `[x, y]`.
    fn from(v: Vector2i) -> (r: [i32; 2])
        ensures
            r[0] == v.x,
            r[1] == v.y,
    {
        [v.x, v.y]
    }
}

impl vstd::std_specs::convert::FromSpecImpl<Vector2i> for [i32; 2] {
    open spec fn obeys_from_spec() -> bool {
        true
    }

    open spec fn from_spec(v: Vector2i) -> [i32; 2] {
        [v.x, v.y]
    }
}


impl From<Vector2i> for mint::Vector2<i32> {
    fn from(v: Vector2i) -> (r: mint::Vector2<i32>)
        ensures
            r.x == v.x,
            r.y == v.y,
    {
        mint::Vector2 { x: v.x, y: v.y }
    }
}

impl vstd::std_specs::convert::FromSpecImpl<Vector2i> for mint::Vector2<i32> {
    open spec fn obeys_from_spec() -> bool {
        true
    }

    open spec fn from_spec(v: Vector2i) -> mint::Vector2<i32> {
        mint::Vector2 { x: v.x, y: v.y }
    }
}

impl From<mint::Vector2<i32>> for Vector2i {
    fn from(v: mint::Vector2<i32>) -> (r: Vector2i)
        ensures
            r.x == v.x,
            r.y == v.y,
    {
        Vector2i { x: v.x, y: v.y }
    }
}

impl vstd::std_specs::convert::FromSpecImpl<mint::Vector2<i32>> for Vector2i {
    open spec fn obeys_from_spec() -> bool {
        true
    }

    open spec fn from_spec(v: mint::Vector2<i32>) -> Vector2i {
        Vector2i { x: v.x, y: v.y }
    }
}

} // verus!
