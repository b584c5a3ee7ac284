//! Integer geometry in logical coordinates.

use vstd::prelude::*;

verus! {

/// The nearest `i32` to a mathematical integer.
pub open spec fn clamp_i32(v: int) -> int {
    if v < i32::MIN {
        i32::MIN as int
    } else if v > i32::MAX {
        i32::MAX as int
    } else {
        v
    }
}

/// Narrows a wide intermediate result, saturating at the bounds of `i32`.
pub fn saturate(v: i64) -> (r: i32)
    ensures
        r == clamp_i32(v as int),
{
    if v < -2147483648i64 {
        i32::MIN
    } else if v > 2147483647i64 {
        i32::MAX
    } else {
        v as i32
    }
}

/// A position in logical coordinates.
#[derive(Clone, Copy, Debug, PartialEq, Eq, Structural)]
pub struct Point {
    pub x: i32,
    pub y: i32,
}

/// An extent in logical coordinates.
#[derive(Clone, Copy, Debug, PartialEq, Eq, Structural)]
pub struct Size {
    pub w: i32,
    pub h: i32,
}

/// An axis-aligned rectangle: origin and extent.
#[derive(Clone, Copy, Debug, PartialEq, Eq, Structural)]
pub struct Rectangle {
    pub loc: Point,
    pub size: Size,
}

impl Point {
    /// Component-wise sum, each component saturating.
    pub open spec fn plus(self, other: Point) -> Point {
        Point {
            x: clamp_i32(self.x + other.x) as i32,
            y: clamp_i32(self.y + other.y) as i32,
        }
    }

    /// Component-wise difference, each component saturating.
    pub open spec fn minus(self, other: Point) -> Point {
        Point {
            x: clamp_i32(self.x - other.x) as i32,
            y: clamp_i32(self.y - other.y) as i32,
        }
    }

    pub fn new(x: i32, y: i32) -> (p: Point)
        ensures
            p == (Point { x, y }),
    {
        Point { x, y }
    }

    pub fn saturating_add(self, other: Point) -> (p: Point)
        ensures
            p == self.plus(other),
    {
        Point {
            x: saturate(self.x as i64 + other.x as i64),
            y: saturate(self.y as i64 + other.y as i64),
        }
    }

    pub fn saturating_sub(self, other: Point) -> (p: Point)
        ensures
            p == self.minus(other),
    {
        Point {
            x: saturate(self.x as i64 - other.x as i64),
            y: saturate(self.y as i64 - other.y as i64),
        }
    }
}

impl Size {
    pub fn new(w: i32, h: i32) -> (s: Size)
        ensures
            s == (Size { w, h }),
    {
        Size { w, h }
    }
}

impl Rectangle {
    /// Whether `p` lies inside: the origin edge is included, the far edge is
    /// not, and the far edge saturates at the largest coordinate.
    pub open spec fn spec_contains(self, p: Point) -> bool {
        &&& p.x >= self.loc.x
        &&& p.x < clamp_i32(self.loc.x + self.size.w)
        &&& p.y >= self.loc.y
        &&& p.y < clamp_i32(self.loc.y + self.size.h)
    }

    pub fn from_loc_and_size(loc: Point, size: Size) -> (r: Rectangle)
        ensures
            r == (Rectangle { loc, size }),
    {
        Rectangle { loc, size }
    }

    pub fn contains(&self, p: Point) -> (b: bool)
        ensures
            b == self.spec_contains(p),
    {
        p.x >= self.loc.x && p.x < saturate(self.loc.x as i64 + self.size.w as i64) && p.y
            >= self.loc.y && p.y < saturate(self.loc.y as i64 + self.size.h as i64)
    }

    /// The point of the rectangle nearest to `p`, the far edges included.
    pub open spec fn spec_clamp_point(self, p: Point) -> Point {
        Point {
            x: clamp_axis(p.x as int, self.loc.x as int, self.size.w as int) as i32,
            y: clamp_axis(p.y as int, self.loc.y as int, self.size.h as int) as i32,
        }
    }

    /// Clamps `p` into the rectangle, x and y independently, to the closed
    /// range from the origin to origin plus extent.
    pub fn clamp_point(&self, p: Point) -> (q: Point)
        ensures
            q == self.spec_clamp_point(p),
    {
        Point {
            x: clamp_coordinate(p.x, self.loc.x, self.size.w),
            y: clamp_coordinate(p.y, self.loc.y, self.size.h),
        }
    }
}

/// `v` clamped to `[origin, origin + extent]`; the upper bound wins where the
/// range is empty, and saturates at the bounds of `i32`.
pub open spec fn clamp_axis(v: int, origin: int, extent: int) -> int {
    let hi = clamp_i32(origin + extent);
    let lo = if v < origin { origin } else { v };
    if lo > hi { hi } else { lo }
}

pub fn clamp_coordinate(v: i32, origin: i32, extent: i32) -> (r: i32)
    ensures
        r == clamp_axis(v as int, origin as int, extent as int),
{
    let hi: i32 = saturate(origin as i64 + extent as i64);
    let lo: i32 = if v < origin { origin } else { v };
    if lo > hi { hi } else { lo }
}

} // verus!

verus! {

/// A request counter value, by which a later acknowledgment is matched to
/// the request that caused it.
#[derive(Clone, Copy, Debug, PartialEq, Eq, Structural)]
pub struct Serial(pub u32);

} // verus!
