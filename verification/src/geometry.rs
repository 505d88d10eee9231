//! Whole-pixel geometry: points, vectors, extents and rectangles.
//!
//! Positions are `i32` pixel counts. Differences of positions and scaled
//! lengths are `i64`, so that subtracting two positions never overflows.
//! Scaling multiplies by a ratio of two `u32` values and rounds towards
//! negative infinity.

use vstd::prelude::*;
use vstd::arithmetic::div_mod::{lemma_fundamental_div_mod, lemma_fundamental_div_mod_converse};

verus! {

/// A position, in whole pixels.
#[derive(Clone, Copy, Debug, PartialEq, Eq, Structural)]
pub struct Point {
    pub x: i32,
    pub y: i32,
}

/// The difference of two positions, or any other signed extent.
#[derive(Clone, Copy, Debug, PartialEq, Eq, Structural)]
pub struct Vector {
    pub dx: i64,
    pub dy: i64,
}

/// The extent of a window or of an image. Both sides are non-negative in a
/// valid extent.
#[derive(Clone, Copy, Debug, PartialEq, Eq, Structural)]
pub struct Size {
    pub width: i32,
    pub height: i32,
}

/// An axis-aligned rectangle given by two corners. Its edges belong to it.
#[derive(Clone, Copy, Debug, PartialEq, Eq, Structural)]
pub struct Rect {
    pub min: Point,
    pub max: Point,
}

/// `v` limited to the closed interval from `lo` to `hi`.
pub open spec fn clamp_int(v: int, lo: int, hi: int) -> int {
    if v < lo {
        lo
    } else if v > hi {
        hi
    } else {
        v
    }
}

/// `v` limited to what an `i32` holds.
pub open spec fn saturate_i32(v: int) -> int {
    clamp_int(v, i32::MIN as int, i32::MAX as int)
}

/// `v` limited to what an `i64` holds.
pub open spec fn saturate_i64(v: int) -> int {
    clamp_int(v, i64::MIN as int, i64::MAX as int)
}

/// `v` times `num / den`, rounded towards negative infinity.
pub open spec fn scaled(v: int, num: int, den: int) -> int {
    (v * num) / den
}

/// The midpoint of `a` and `b`, rounded towards negative infinity.
pub open spec fn midpoint(a: int, b: int) -> int {
    (a + b) / 2
}

/// The smaller of two integers.
pub open spec fn min_int(a: int, b: int) -> int {
    if a <= b {
        a
    } else {
        b
    }
}

/// The larger of two integers.
pub open spec fn max_int(a: int, b: int) -> int {
    if a >= b {
        a
    } else {
        b
    }
}

/// The product of what an `i64` holds and what a `u32` holds stays within
/// 96 bits.
pub proof fn lemma_product_bound(v: int, num: int)
    requires
        -0x8000_0000_0000_0000 <= v <= 0x7fff_ffff_ffff_ffff,
        0 <= num <= 0xffff_ffff,
    ensures
        -0x8000_0000_0000_0000 * 0x1_0000_0000 <= v * num <= 0x8000_0000_0000_0000 * 0x1_0000_0000,
{
    assert(v * num <= 0x8000_0000_0000_0000 * 0x1_0000_0000) by (nonlinear_arith)
        requires
            v <= 0x7fff_ffff_ffff_ffff,
            0 <= num <= 0xffff_ffff,
    ;
    assert(-0x8000_0000_0000_0000 * 0x1_0000_0000 <= v * num) by (nonlinear_arith)
        requires
            -0x8000_0000_0000_0000 <= v,
            0 <= num <= 0xffff_ffff,
    ;
}

/// A quotient is no larger in magnitude than its dividend.
pub proof fn lemma_quotient_bound(a: int, d: int)
    requires
        d > 0,
    ensures
        a >= 0 ==> 0 <= a / d <= a,
        a < 0 ==> a <= a / d < 0,
{
    lemma_fundamental_div_mod(a, d);
    let q = a / d;
    let r = a % d;
    assert(a == d * q + r);
    assert(0 <= r < d);
    if a >= 0 {
        assert(q >= 0) by (nonlinear_arith)
            requires
                a == d * q + r,
                0 <= r < d,
                a >= 0,
                d > 0,
        ;
        assert(q <= a) by (nonlinear_arith)
            requires
                a == d * q + r,
                0 <= r < d,
                q >= 0,
                d > 0,
        ;
    } else {
        assert(q < 0) by (nonlinear_arith)
            requires
                a == d * q + r,
                0 <= r < d,
                a < 0,
                d > 0,
        ;
        assert(a <= q) by (nonlinear_arith)
            requires
                a == d * q + r,
                0 <= r < d,
                q < 0,
                d > 0,
        ;
    }
}

/// Division that rounds towards negative infinity.
fn floor_div(a: i128, d: i128) -> (q: i128)
    requires
        d > 0,
        -0x8000_0000_0000_0000 * 0x1_0000_0000 <= a <= 0x8000_0000_0000_0000 * 0x1_0000_0000,
        d <= 0xffff_ffff,
    ensures
        q == (a as int) / (d as int),
{
    if a >= 0 {
        a / d
    } else {
        let n: i128 = -a;
        let up: i128 = n + d - 1;
        let q: i128 = up / d;
        proof {
            let r = (up as int) % (d as int);
            lemma_fundamental_div_mod(up as int, d as int);
            assert(up == d * q + r);
            assert(a as int == (-q) * d + (d - 1 - r)) by (nonlinear_arith)
                requires
                    up == d * q + r,
                    up == -a + d - 1,
            ;
            lemma_fundamental_div_mod_converse(a as int, d as int, -(q as int), d - 1 - r);
            lemma_quotient_bound(up as int, d as int);
        }
        -q
    }
}

/// Scales `v` by `num / den`, rounding towards negative infinity.
pub fn scale(v: i64, num: u32, den: u32) -> (r: i128)
    requires
        den > 0,
    ensures
        r == scaled(v as int, num as int, den as int),
{
    proof {
        lemma_product_bound(v as int, num as int);
    }
    let a: i128 = (v as i128) * (num as i128);
    floor_div(a, den as i128)
}

/// Limits `v` to what an `i32` holds.
pub fn to_i32_saturating(v: i128) -> (r: i32)
    ensures
        r == saturate_i32(v as int),
{
    if v < i32::MIN as i128 {
        i32::MIN
    } else if v > i32::MAX as i128 {
        i32::MAX
    } else {
        v as i32
    }
}

/// Limits `v` to what an `i64` holds.
pub fn to_i64_saturating(v: i128) -> (r: i64)
    ensures
        r == saturate_i64(v as int),
{
    if v < i64::MIN as i128 {
        i64::MIN
    } else if v > i64::MAX as i128 {
        i64::MAX
    } else {
        v as i64
    }
}

/// The midpoint of two coordinates, rounded towards negative infinity.
pub fn midpoint_of(a: i32, b: i32) -> (m: i32)
    ensures
        m == midpoint(a as int, b as int),
{
    let s: i64 = a as i64 + b as i64;
    if s >= 0 {
        (s / 2) as i32
    } else {
        (-((1 - s) / 2)) as i32
    }
}

impl Point {
    /// The point with the given coordinates.
    pub fn new(x: i32, y: i32) -> (p: Point)
        ensures
            p.x == x,
            p.y == y,
    {
        Point { x, y }
    }

    /// The origin.
    pub fn zero() -> (p: Point)
        ensures
            p.x == 0,
            p.y == 0,
    {
        Point { x: 0, y: 0 }
    }

    /// The vector that leads from `from` to this point.
    pub open spec fn offset_from(self, from: Point) -> Vector {
        Vector { dx: (self.x - from.x) as i64, dy: (self.y - from.y) as i64 }
    }

    /// The vector that leads from `from` to this point.
    pub fn minus(self, from: Point) -> (v: Vector)
        ensures
            v == self.offset_from(from),
            v.dx == self.x - from.x,
            v.dy == self.y - from.y,
    {
        Vector { dx: self.x as i64 - from.x as i64, dy: self.y as i64 - from.y as i64 }
    }

    /// This point moved into the window whose corners are the origin and
    /// `(window.width, window.height)`.
    pub open spec fn clamped(self, window: Size) -> Point {
        Point {
            x: clamp_int(self.x as int, 0, window.width as int) as i32,
            y: clamp_int(self.y as int, 0, window.height as int) as i32,
        }
    }

    /// Moves the point into the window; a point inside it is unchanged.
    pub fn clamp(self, window: Size) -> (p: Point)
        requires
            window.is_valid(),
        ensures
            p == self.clamped(window),
            window.holds(p),
    {
        let x: i32 = if self.x < 0 {
            0
        } else if self.x > window.width {
            window.width
        } else {
            self.x
        };
        let y: i32 = if self.y < 0 {
            0
        } else if self.y > window.height {
            window.height
        } else {
            self.y
        };
        Point { x, y }
    }

    /// Whether this point lies no further than `reach` from `center` on
    /// either axis.
    pub open spec fn near(self, center: Point, reach: int) -> bool {
        &&& center.x - reach <= self.x <= center.x + reach
        &&& center.y - reach <= self.y <= center.y + reach
    }

    /// Tells whether the point lies in the square of side `2 * reach` around
    /// `center`, edges included.
    pub fn is_near(self, center: Point, reach: i32) -> (b: bool)
        ensures
            b == self.near(center, reach as int),
    {
        let px: i64 = self.x as i64;
        let py: i64 = self.y as i64;
        let cx: i64 = center.x as i64;
        let cy: i64 = center.y as i64;
        let d: i64 = reach as i64;
        cx - d <= px && px <= cx + d && cy - d <= py && py <= cy + d
    }
}

impl Size {
    /// Both sides are non-negative.
    pub open spec fn is_valid(self) -> bool {
        self.width >= 0 && self.height >= 0
    }

    /// Whether `p` lies between the origin and the far corner.
    pub open spec fn holds(self, p: Point) -> bool {
        0 <= p.x <= self.width && 0 <= p.y <= self.height
    }

    /// Whether `r` lies between the origin and the far corner.
    pub open spec fn holds_rect(self, r: Rect) -> bool {
        self.holds(r.min) && self.holds(r.max)
    }

    /// The extent with the given sides.
    pub fn new(width: i32, height: i32) -> (s: Size)
        ensures
            s.width == width,
            s.height == height,
    {
        Size { width, height }
    }
}

impl Rect {
    /// `min` is left of and above `max`, or equal to it.
    pub open spec fn is_normalized(self) -> bool {
        self.min.x <= self.max.x && self.min.y <= self.max.y
    }

    /// Whether `p` lies in the rectangle, edges included.
    pub open spec fn holds(self, p: Point) -> bool {
        &&& self.min.x <= p.x <= self.max.x
        &&& self.min.y <= p.y <= self.max.y
    }

    /// The normalized rectangle that has `a` and `b` as opposite corners.
    pub open spec fn spanned(a: Point, b: Point) -> Rect {
        Rect {
            min: Point {
                x: min_int(a.x as int, b.x as int) as i32,
                y: min_int(a.y as int, b.y as int) as i32,
            },
            max: Point {
                x: max_int(a.x as int, b.x as int) as i32,
                y: max_int(a.y as int, b.y as int) as i32,
            },
        }
    }

    /// The horizontal extent.
    pub open spec fn spec_width(self) -> int {
        self.max.x - self.min.x
    }

    /// The vertical extent.
    pub open spec fn spec_height(self) -> int {
        self.max.y - self.min.y
    }

    /// The rectangle with the given corners, taken as they are.
    pub fn from_min_max(min: Point, max: Point) -> (r: Rect)
        ensures
            r.min == min,
            r.max == max,
    {
        Rect { min, max }
    }

    /// The rectangle dragged out between `a` and `b`, whichever way the
    /// drag went: each axis is ordered on its own.
    pub fn spanning(a: Point, b: Point) -> (r: Rect)
        ensures
            r == Rect::spanned(a, b),
            r.is_normalized(),
            r.holds(a),
            r.holds(b),
    {
        let (x0, x1): (i32, i32) = if b.x < a.x {
            (b.x, a.x)
        } else {
            (a.x, b.x)
        };
        let (y0, y1): (i32, i32) = if b.y < a.y {
            (b.y, a.y)
        } else {
            (a.y, b.y)
        };
        Rect { min: Point { x: x0, y: y0 }, max: Point { x: x1, y: y1 } }
    }

    /// Tells whether `p` lies in the rectangle, edges included.
    pub fn contains(&self, p: Point) -> (b: bool)
        ensures
            b == self.holds(p),
    {
        self.min.x <= p.x && p.x <= self.max.x && self.min.y <= p.y && p.y <= self.max.y
    }

    /// The horizontal extent; negative when the rectangle is not normalized.
    pub fn width(&self) -> (w: i64)
        ensures
            w == self.spec_width(),
    {
        self.max.x as i64 - self.min.x as i64
    }

    /// The vertical extent; negative when the rectangle is not normalized.
    pub fn height(&self) -> (h: i64)
        ensures
            h == self.spec_height(),
    {
        self.max.y as i64 - self.min.y as i64
    }

    /// The point midway between the corners, each coordinate rounded
    /// towards negative infinity.
    pub open spec fn spec_center(self) -> Point {
        Point {
            x: midpoint(self.min.x as int, self.max.x as int) as i32,
            y: midpoint(self.min.y as int, self.max.y as int) as i32,
        }
    }

    /// The point midway between the corners.
    pub fn center(&self) -> (c: Point)
        ensures
            c == self.spec_center(),
    {
        Point { x: midpoint_of(self.min.x, self.max.x), y: midpoint_of(self.min.y, self.max.y) }
    }
}

} // verus!
