//! Axis-aligned integer rectangle defined by the lines of its four edges.

use vstd::prelude::*;

use crate::num::{bits_as_u32, fits_i32, i32_to_u32};
use crate::point2i::Point2i;
use crate::rectu::Rectu;

verus! {

/// A rectangle given by the coordinates of its upper-left corner
/// `(left, top)` and of its lower-right corner `(right, bottom)`, edges
/// included.
///
/// Most operations expect the normalized form `left <= right` and
/// `top <= bottom`; `normalized` restores it.
#[derive(Copy, Clone, Debug, Default, PartialEq, Eq, Structural)]
pub struct Recti {
    /// The x-coordinate of the upper-left corner.
    pub left: i32,
    /// The y-coordinate of the upper-left corner.
    pub top: i32,
    /// The x-coordinate of the lower-right corner.
    pub right: i32,
    /// The y-coordinate of the lower-right corner.
    pub bottom: i32,
}

/// The smaller of two `i32` values.
fn min_i32(a: i32, b: i32) -> (r: i32)
    ensures
        r == vstd::math::min(a as int, b as int),
{
    if a <= b {
        a
    } else {
        b
    }
}

/// The larger of two `i32` values.
fn max_i32(a: i32, b: i32) -> (r: i32)
    ensures
        r == vstd::math::max(a as int, b as int),
{
    if a >= b {
        a
    } else {
        b
    }
}

impl Recti {
    /// `left <= right` and `top <= bottom`.
    pub open spec fn is_normalized(self) -> bool {
        self.left <= self.right && self.top <= self.bottom
    }

    /// `p` lies inside the rectangle or on one of its edges.
    pub open spec fn contains_spec(self, p: Point2i) -> bool {
        self.left <= p.x <= self.right && self.top <= p.y <= self.bottom
    }

    /// `p` lies on one of the four lines through the rectangle's edges.
    pub open spec fn on_edge_spec(self, p: Point2i) -> bool {
        p.x == self.left || p.x == self.right || p.y == self.top || p.y == self.bottom
    }

    /// The rectangle with the same edges, ordered so that it is normalized.
    pub open spec fn normalized_spec(self) -> Recti {
        Recti {
            left: vstd::math::min(self.left as int, self.right as int) as i32,
            top: vstd::math::min(self.top as int, self.bottom as int) as i32,
            right: vstd::math::max(self.left as int, self.right as int) as i32,
            bottom: vstd::math::max(self.top as int, self.bottom as int) as i32,
        }
    }

    /// The smallest normalized rectangle holding both normalized rectangles.
    pub open spec fn hull_spec(a: Recti, b: Recti) -> Recti {
        Recti {
            left: vstd::math::min(a.left as int, b.left as int) as i32,
            top: vstd::math::min(a.top as int, b.top as int) as i32,
            right: vstd::math::max(a.right as int, b.right as int) as i32,
            bottom: vstd::math::max(a.bottom as int, b.bottom as int) as i32,
        }
    }

    /// Every point of `other` lies in `self`: `other`'s edges lie within
    /// `self`'s.
    pub open spec fn encloses(self, other: Recti) -> bool {
        self.left <= other.left && self.top <= other.top && other.right <= self.right
            && other.bottom <= self.bottom
    }

    /// The number of values from `lo` to `hi`, both included.
    pub open spec fn span(lo: i32, hi: i32) -> nat {
        if lo <= hi {
            (hi - lo + 1) as nat
        } else {
            0
        }
    }

    /// The rectangle that holds no point: its edges are inverted as far as
    /// `i32` allows.
    pub fn empty() -> (r: Recti)
        ensures
            r.left == i32::MAX,
            r.top == i32::MAX,
            r.right == i32::MIN,
            r.bottom == i32::MIN,
            forall|p: Point2i| !r.contains_spec(p),
    {
        Recti { left: i32::MAX, top: i32::MAX, right: i32::MIN, bottom: i32::MIN }
    }

    /// Constructs the rectangle from its edges.
    pub fn new(left: i32, top: i32, right: i32, bottom: i32) -> (r: Recti)
        ensures
            r == (Recti { left, top, right, bottom }),
    {
        Recti { left, top, right, bottom }
    }

    /// The rectangle that holds exactly the one point `point`.
    pub fn point(point: Point2i) -> (r: Recti)
        ensures
            r == (Recti { left: point.x, top: point.y, right: point.x, bottom: point.y }),
            forall|p: Point2i| r.contains_spec(p) <==> p == point,
    {
        Recti { left: point.x, top: point.y, right: point.x, bottom: point.y }
    }

    /// Reinterprets the edges as unsigned, bit for bit: a negative edge
    /// wraps around to a large unsigned value.
    pub fn to_u32(&self) -> (r: Rectu)
        ensures
            r.left == bits_as_u32(self.left),
            r.top == bits_as_u32(self.top),
            r.right == bits_as_u32(self.right),
            r.bottom == bits_as_u32(self.bottom),
    {
        Rectu {
            left: i32_to_u32(self.left),
            top: i32_to_u32(self.top),
            right: i32_to_u32(self.right),
            bottom: i32_to_u32(self.bottom),
        }
    }

    /// Whether `point` lies inside the rectangle or on its edges. A
    /// rectangle that is not normalized holds no point.
    pub fn contains_point(&self, point: Point2i) -> (r: bool)
        ensures
            r == self.contains_spec(point),
    {
        point.x >= self.left && point.y >= self.top && point.x <= self.right && point.y
            <= self.bottom
    }

    /// Whether `point` lies on one of the lines through the rectangle's
    /// edges.
    pub fn is_on_edge(&self, point: Point2i) -> (r: bool)
        ensures
            r == self.on_edge_spec(point),
    {
        point.x == self.left || point.x == self.right || point.y == self.top || point.y
            == self.bottom
    }

    /// The same rectangle with `left <= right` and `top <= bottom`, edges
    /// swapped where needed.
    pub fn normalized(self) -> (r: Recti)
        ensures
            r == self.normalized_spec(),
            r.is_normalized(),
    {
        Recti {
            left: min_i32(self.left, self.right),
            top: min_i32(self.top, self.bottom),
            right: max_i32(self.left, self.right),
            bottom: max_i32(self.top, self.bottom),
        }
    }

    /// The smallest rectangle that holds both rectangles, each taken in
    /// normalized form.
    pub fn combined_with(&self, other: Recti) -> (r: Recti)
        ensures
            r == Recti::hull_spec(self.normalized_spec(), other.normalized_spec()),
            r.is_normalized(),
    {
        let r1 = self.normalized();
        let r2 = other.normalized();
        Recti {
            left: min_i32(r1.left, r2.left),
            top: min_i32(r1.top, r2.top),
            right: max_i32(r1.right, r2.right),
            bottom: max_i32(r1.bottom, r2.bottom),
        }
    }

    /// `right - left`.
    pub fn width(&self) -> (r: i32)
        requires
            fits_i32(self.right - self.left),
        ensures
            r == self.right - self.left,
    {
        self.right - self.left
    }

    /// `bottom - top`.
    pub fn height(&self) -> (r: i32)
        requires
            fits_i32(self.bottom - self.top),
        ensures
            r == self.bottom - self.top,
    {
        self.bottom - self.top
    }

    /// Width times height, computed in 64 bits.
    pub fn area(&self) -> (r: i64)
        requires
            fits_i32(self.right - self.left),
            fits_i32(self.bottom - self.top),
        ensures
            r == (self.right - self.left) * (self.bottom - self.top),
    {
        let width = self.width() as i64;
        let height = self.height() as i64;
        proof {
            assert(-0x4000_0000_0000_0000 <= width * height <= 0x4000_0000_0000_0000)
                by (nonlinear_arith)
                requires
                    -0x8000_0000 <= width <= 0x8000_0000,
                    -0x8000_0000 <= height <= 0x8000_0000,
            ;
        }
        width * height
    }

    /// The y-coordinates from `top` to `bottom`, both included, in order.
    pub fn rows(&self) -> (r: Vec<i32>)
        ensures
            r@.len() == Recti::span(self.top, self.bottom),
            forall|i: int| 0 <= i < r@.len() ==> r@[i] == self.top + i,
    {
        span_values(self.top, self.bottom)
    }

    /// The x-coordinates from `left` to `right`, both included, in order.
    pub fn columns(&self) -> (r: Vec<i32>)
        ensures
            r@.len() == Recti::span(self.left, self.right),
            forall|i: int| 0 <= i < r@.len() ==> r@[i] == self.left + i,
    {
        span_values(self.left, self.right)
    }

    /// Every point of the rectangle, edges included, row by row from `top`
    /// to `bottom` and, within a row, from `left` to `right`.
    pub fn points(self) -> (r: Vec<Point2i>)
        ensures
            r@.len() == Recti::span(self.top, self.bottom) * Recti::span(self.left, self.right),
            forall|row: int, col: int|
                #![trigger r@[row * Recti::span(self.left, self.right) + col]]
                0 <= row < Recti::span(self.top, self.bottom) && 0 <= col < Recti::span(
                    self.left,
                    self.right,
                ) ==> r@[row * Recti::span(self.left, self.right) + col] == Point2i::of(
                    self.left + col,
                    self.top + row,
                ),
    {
        let rows = self.rows();
        let cols = self.columns();
        let ghost n = Recti::span(self.left, self.right) as int;
        let mut out: Vec<Point2i> = Vec::new();
        let mut i: usize = 0;
        while i < rows.len()
            invariant
                0 <= i <= rows@.len(),
                rows@.len() == Recti::span(self.top, self.bottom),
                cols@.len() == n,
                forall|k: int| 0 <= k < rows@.len() ==> rows@[k] == self.top + k,
                forall|k: int| 0 <= k < cols@.len() ==> cols@[k] == self.left + k,
                out@.len() == i * n,
                forall|row: int, col: int|
                    #![trigger out@[row * n + col]]
                    0 <= row < i && 0 <= col < n ==> out@[row * n + col] == Point2i::of(
                        self.left + col,
                        self.top + row,
                    ),
            decreases rows@.len() - i,
        {
            let y = rows[i];
            let mut j: usize = 0;
            while j < cols.len()
                invariant
                    0 <= i < rows@.len(),
                    0 <= j <= cols@.len(),
                    cols@.len() == n,
                    y == self.top + i,
                    forall|k: int| 0 <= k < cols@.len() ==> cols@[k] == self.left + k,
                    out@.len() == i * n + j,
                    forall|row: int, col: int|
                        #![trigger out@[row * n + col]]
                        (0 <= row < i && 0 <= col < n) || (row == i && 0 <= col < j)
                            ==> out@[row * n + col] == Point2i::of(
                            self.left + col,
                            self.top + row,
                        ),
                decreases cols@.len() - j,
            {
                let ghost before = out@;
                out.push(Point2i { x: cols[j], y });
                proof {
                    assert forall|row: int, col: int|
                        (0 <= row < i && 0 <= col < n) || (row == i && 0 <= col < j + 1)
                            implies #[trigger] out@[row * n + col] == Point2i::of(
                            self.left + col,
                            self.top + row,
                        ) by {
                        if row == i && col == j {
                        } else {
                            lemma_row_major_below(row, col, i as int, j as int, n);
                            assert(out@[row * n + col] == before[row * n + col]);
                        }
                    }
                }
                j = j + 1;
            }
            proof {
                assert((i + 1) * n == i * n + n) by (nonlinear_arith);
            }
            i = i + 1;
        }
        out
    }
}

/// What `combined_with` returns is the smallest rectangle that holds both
/// operands: it encloses each of them in normalized form, every point of
/// either lies in it, and any rectangle that encloses both encloses it.
pub proof fn lemma_combined_with_is_smallest_cover(a: Recti, b: Recti, p: Point2i, c: Recti)
    ensures
        ({
            let hull = Recti::hull_spec(a.normalized_spec(), b.normalized_spec());
            &&& hull.encloses(a.normalized_spec())
            &&& hull.encloses(b.normalized_spec())
            &&& a.normalized_spec().contains_spec(p) ==> hull.contains_spec(p)
            &&& b.normalized_spec().contains_spec(p) ==> hull.contains_spec(p)
            &&& c.encloses(a.normalized_spec()) && c.encloses(b.normalized_spec())
                ==> c.encloses(hull)
        }),
{
}

/// In row-major order with rows of length `n`, a cell before `(i, j)`
/// has a smaller index.
proof fn lemma_row_major_below(row: int, col: int, i: int, j: int, n: int)
    requires
        0 <= i,
        0 <= col < n,
        0 <= j <= n,
        (0 <= row < i) || (row == i && 0 <= col < j),
    ensures
        0 <= row * n + col < i * n + j,
{
    if row < i {
        assert(row * n + col < i * n) by (nonlinear_arith)
            requires
                0 <= row < i,
                0 <= col < n,
        ;
        assert(0 <= row * n) by (nonlinear_arith)
            requires
                0 <= row,
                0 <= n,
        ;
    } else {
        assert(0 <= row * n) by (nonlinear_arith)
            requires
                0 <= row,
                0 <= n,
        ;
    }
}

/// The values from `lo` to `hi`, both included, in order.
fn span_values(lo: i32, hi: i32) -> (r: Vec<i32>)
    ensures
        r@.len() == Recti::span(lo, hi),
        forall|i: int| 0 <= i < r@.len() ==> r@[i] == lo + i,
{
    let mut out: Vec<i32> = Vec::new();
    if lo > hi {
        return out;
    }
    let mut v: i32 = lo;
    loop
        invariant
            lo <= v <= hi,
            out@.len() == v - lo,
            forall|i: int| 0 <= i < out@.len() ==> out@[i] == lo + i,
        decreases hi - v,
    {
        out.push(v);
        if v == hi {
            return out;
        }
        v = v + 1;
    }
}

impl From<Point2i> for Recti {
    /// The rectangle that holds exactly the one point `point`.
    fn from(point: Point2i) -> (r: Recti)
        ensures
            r == (Recti { left: point.x, top: point.y, right: point.x, bottom: point.y }),
    {
        Recti::point(point)
    }
}

impl vstd::std_specs::convert::FromSpecImpl<Point2i> for Recti {
    open spec fn obeys_from_spec() -> bool {
        true
    }

    open spec fn from_spec(point: Point2i) -> Recti {
        Recti { left: point.x, top: point.y, right: point.x, bottom: point.y }
    }
}

} // verus!
