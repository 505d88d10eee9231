//! The mapping between the window that shows the image and the image itself.
//!
//! Render space is what the pointer reports: pixels of the window, in which
//! the image is shown scaled and centred. Image space is the captured image
//! at its native resolution, where drawings are stored. While a part of the
//! image is selected, image-space positions are offset by that part's
//! top-left corner.

use vstd::prelude::*;
use vstd::arithmetic::div_mod::{lemma_fundamental_div_mod, lemma_fundamental_div_mod_converse};
use crate::annotation::{shapes, DrawingType, Shape, Stroke};
use crate::geometry::{
    saturate_i32, saturate_i64, scale, scaled, to_i32_saturating, to_i64_saturating, Point, Rect,
    Size, Vector,
};

verus! {

/// The image-space coordinate of the render-space coordinate `v`, where the
/// image is shown from `origin` on, `num` image pixels on `den` window
/// pixels, and image space is offset by `area_min`.
pub open spec fn image_coord(v: int, origin: int, area_min: int, num: int, den: int) -> int {
    saturate_i32(scaled(v - origin, num, den) + area_min)
}

/// The render-space coordinate of the image-space coordinate `v`: the
/// inverse of [`image_coord`] up to rounding.
pub open spec fn render_coord(v: int, origin: int, area_min: int, num: int, den: int) -> int {
    saturate_i32(scaled(v - area_min, den, num) + origin)
}

/// `v` limited to what a `u32` holds.
pub open spec fn saturate_u32(v: int) -> int {
    if v < 0 {
        0
    } else if v > u32::MAX {
        u32::MAX as int
    } else {
        v
    }
}

/// How the image lies in the window: `image_extent` image pixels are shown
/// on `render_extent` window pixels, and the image's top-left corner is at
/// `origin`. Neither extent is zero.
#[derive(Clone, Copy, Debug, PartialEq, Eq)]
pub struct ViewportTransform {
    image_extent: u32,
    render_extent: u32,
    origin: Point,
}

impl ViewportTransform {
    /// The number of image pixels that are shown on `render_extent()` window
    /// pixels.
    pub closed spec fn spec_image_extent(self) -> u32 {
        self.image_extent
    }

    /// The number of window pixels that show `image_extent()` image pixels.
    pub closed spec fn spec_render_extent(self) -> u32 {
        self.render_extent
    }

    /// Where the image's top-left corner lies in the window.
    pub closed spec fn spec_origin(self) -> Point {
        self.origin
    }

    /// Neither extent is zero.
    pub open spec fn wf(self) -> bool {
        self.spec_image_extent() > 0 && self.spec_render_extent() > 0
    }

    #[verifier::type_invariant]
    spec fn inv(self) -> bool {
        self.wf()
    }

    /// The transform that shows `image_extent` image pixels on
    /// `render_extent` window pixels from `origin` on; none where an extent
    /// is zero.
    pub fn new(image_extent: u32, render_extent: u32, origin: Point) -> (t: Option<
        ViewportTransform,
    >)
        ensures
            t is Some <==> image_extent > 0 && render_extent > 0,
            t matches Some(t) ==> {
                &&& t.wf()
                &&& t.spec_image_extent() == image_extent
                &&& t.spec_render_extent() == render_extent
                &&& t.spec_origin() == origin
            },
    {
        if image_extent > 0 && render_extent > 0 {
            Some(ViewportTransform { image_extent, render_extent, origin })
        } else {
            None
        }
    }

    /// The number of image pixels that are shown on `render_extent()` window
    /// pixels.
    #[verifier::when_used_as_spec(spec_image_extent)]
    pub fn image_extent(self) -> (n: u32)
        ensures
            n == self.spec_image_extent(),
            n > 0,
    {
        proof {
            use_type_invariant(self);
        }
        self.image_extent
    }

    /// The number of window pixels that show `image_extent()` image pixels.
    #[verifier::when_used_as_spec(spec_render_extent)]
    pub fn render_extent(self) -> (n: u32)
        ensures
            n == self.spec_render_extent(),
            n > 0,
    {
        proof {
            use_type_invariant(self);
        }
        self.render_extent
    }

    /// Where the image's top-left corner lies in the window.
    #[verifier::when_used_as_spec(spec_origin)]
    pub fn origin(self) -> (p: Point)
        ensures
            p == self.spec_origin(),
    {
        self.origin
    }

    /// The image-space position of the render-space position `p`.
    pub open spec fn image_of(self, p: Point, area_min: Point) -> Point {
        Point {
            x: image_coord(
                p.x as int,
                self.spec_origin().x as int,
                area_min.x as int,
                self.spec_image_extent() as int,
                self.spec_render_extent() as int,
            ) as i32,
            y: image_coord(
                p.y as int,
                self.spec_origin().y as int,
                area_min.y as int,
                self.spec_image_extent() as int,
                self.spec_render_extent() as int,
            ) as i32,
        }
    }

    /// The render-space position of the image-space position `p`.
    pub open spec fn render_of(self, p: Point, area_min: Point) -> Point {
        Point {
            x: render_coord(
                p.x as int,
                self.spec_origin().x as int,
                area_min.x as int,
                self.spec_image_extent() as int,
                self.spec_render_extent() as int,
            ) as i32,
            y: render_coord(
                p.y as int,
                self.spec_origin().y as int,
                area_min.y as int,
                self.spec_image_extent() as int,
                self.spec_render_extent() as int,
            ) as i32,
        }
    }

    /// An image-space length as it is shown in the window.
    pub open spec fn render_length(self, len: int) -> int {
        saturate_i64(scaled(len, self.spec_render_extent() as int, self.spec_image_extent() as int))
    }

    /// An image-space stroke width as it is shown in the window.
    pub open spec fn render_width(self, width: int) -> int {
        saturate_u32(scaled(width, self.spec_render_extent() as int, self.spec_image_extent() as int))
    }

    /// Maps a window position to the image: `(p - origin) * ratio + area_min`
    /// on each axis, where `ratio` is `image_extent / render_extent`.
    pub fn to_image_space(self, p: Point, area_min: Point) -> (q: Point)
        ensures
            q == self.image_of(p, area_min),
    {
        proof {
            use_type_invariant(self);
        }
        let dx: i64 = p.x as i64 - self.origin.x as i64;
        let dy: i64 = p.y as i64 - self.origin.y as i64;
        let sx: i128 = scale(dx, self.image_extent, self.render_extent);
        let sy: i128 = scale(dy, self.image_extent, self.render_extent);
        proof {
            lemma_scaled_bound(dx as int, self.image_extent as int, self.render_extent as int);
            lemma_scaled_bound(dy as int, self.image_extent as int, self.render_extent as int);
        }
        Point {
            x: to_i32_saturating(sx + area_min.x as i128),
            y: to_i32_saturating(sy + area_min.y as i128),
        }
    }

    /// Maps an image position to the window: `(p - area_min) / ratio +
    /// origin` on each axis, where `ratio` is `image_extent / render_extent`.
    pub fn to_render_space(self, p: Point, area_min: Point) -> (q: Point)
        ensures
            q == self.render_of(p, area_min),
    {
        proof {
            use_type_invariant(self);
        }
        let dx: i64 = p.x as i64 - area_min.x as i64;
        let dy: i64 = p.y as i64 - area_min.y as i64;
        let sx: i128 = scale(dx, self.render_extent, self.image_extent);
        let sy: i128 = scale(dy, self.render_extent, self.image_extent);
        proof {
            lemma_scaled_bound(dx as int, self.render_extent as int, self.image_extent as int);
            lemma_scaled_bound(dy as int, self.render_extent as int, self.image_extent as int);
        }
        Point {
            x: to_i32_saturating(sx + self.origin.x as i128),
            y: to_i32_saturating(sy + self.origin.y as i128),
        }
    }

    /// Divides an image-space length by the ratio, for showing it in the
    /// window.
    pub fn length_to_render(self, len: i64) -> (r: i64)
        ensures
            r == self.render_length(len as int),
    {
        proof {
            use_type_invariant(self);
        }
        to_i64_saturating(scale(len, self.render_extent, self.image_extent))
    }

    /// Divides an image-space stroke width by the ratio, for showing it in
    /// the window.
    pub fn width_to_render(self, width: u32) -> (r: u32)
        ensures
            r == self.render_width(width as int),
    {
        proof {
            use_type_invariant(self);
        }
        let s: i128 = scale(width as i64, self.render_extent, self.image_extent);
        if s < 0 {
            0
        } else if s > u32::MAX as i128 {
            u32::MAX
        } else {
            s as u32
        }
    }
}

impl ViewportTransform {
    /// The render-space positions of the image-space positions `points`.
    pub open spec fn render_points(self, points: Seq<Point>, area_min: Point) -> Seq<Point> {
        Seq::new(points.len(), |i: int| self.render_of(points[i], area_min))
    }

    /// A stroke as it is shown in the window: its width divided by the
    /// ratio.
    pub open spec fn render_stroke(self, s: Stroke) -> Stroke {
        Stroke { width: self.render_width(s.width as int) as u32, color: s.color }
    }

    /// An image-space shape as it is shown in the window. Positions are
    /// mapped to render space; stroke width, radius and arrow vector are
    /// divided by the ratio.
    pub open spec fn render_shape(self, shape: Shape, area_min: Point) -> Shape {
        match shape {
            Shape::Brush { points, s, end } => Shape::Brush {
                points: self.render_points(points, area_min),
                s: self.render_stroke(s),
                end,
            },
            Shape::Rectangle { r, s } => Shape::Rectangle {
                r: Rect { min: self.render_of(r.min, area_min), max: self.render_of(r.max, area_min) },
                s: self.render_stroke(s),
            },
            Shape::Circle { c, r, s } => Shape::Circle {
                c: self.render_of(c, area_min),
                r: self.render_length(r as int) as i64,
                s: self.render_stroke(s),
            },
            Shape::Arrow { p, v, s } => Shape::Arrow {
                p: self.render_of(p, area_min),
                v: Vector {
                    dx: self.render_length(v.dx as int) as i64,
                    dy: self.render_length(v.dy as int) as i64,
                },
                s: self.render_stroke(s),
            },
            Shape::Text { p, t, s } => Shape::Text {
                p: self.render_of(p, area_min),
                t,
                s: self.render_stroke(s),
            },
        }
    }

    /// The shapes of `shapes` as they are shown in the window, in the same
    /// order.
    pub open spec fn render_shapes(self, shapes: Seq<Shape>, area_min: Point) -> Seq<Shape> {
        Seq::new(shapes.len(), |i: int| self.render_shape(shapes[i], area_min))
    }

    /// A stroke for the window: the width is divided by the ratio.
    pub fn stroke_to_render(self, s: Stroke) -> (r: Stroke)
        ensures
            r == self.render_stroke(s),
    {
        Stroke { width: self.width_to_render(s.width), color: s.color }
    }

    /// The drawing as it is to be painted in the window.
    pub fn to_render(self, d: &DrawingType, area_min: Point) -> (r: DrawingType)
        ensures
            r@ == self.render_shape(d@, area_min),
    {
        match d {
            DrawingType::Brush { points, s, end } => {
                let mut mapped: Vec<Point> = Vec::new();
                let mut i: usize = 0;
                while i < points.len()
                    invariant
                        i <= points.len(),
                        mapped@ == self.render_points(points@.subrange(0, i as int), area_min),
                    decreases points.len() - i,
                {
                    mapped.push(self.to_render_space(points[i], area_min));
                    i = i + 1;
                    assert(mapped@ =~= self.render_points(
                        points@.subrange(0, i as int),
                        area_min,
                    ));
                }
                assert(points@.subrange(0, points.len() as int) =~= points@);
                DrawingType::Brush { points: mapped, s: self.stroke_to_render(*s), end: *end }
            },
            DrawingType::Rectangle { r, s } => DrawingType::Rectangle {
                r: Rect {
                    min: self.to_render_space(r.min, area_min),
                    max: self.to_render_space(r.max, area_min),
                },
                s: self.stroke_to_render(*s),
            },
            DrawingType::Circle { c, r, s } => DrawingType::Circle {
                c: self.to_render_space(*c, area_min),
                r: self.length_to_render(*r),
                s: self.stroke_to_render(*s),
            },
            DrawingType::Arrow { p, v, s } => DrawingType::Arrow {
                p: self.to_render_space(*p, area_min),
                v: Vector { dx: self.length_to_render(v.dx), dy: self.length_to_render(v.dy) },
                s: self.stroke_to_render(*s),
            },
            DrawingType::Text { p, t, s } => DrawingType::Text {
                p: self.to_render_space(*p, area_min),
                t: t.clone(),
                s: self.stroke_to_render(*s),
            },
        }
    }

    /// Every drawing of `drawings` as it is to be painted in the window, in
    /// the same order.
    pub fn all_to_render(self, drawings: &Vec<DrawingType>, area_min: Point) -> (r: Vec<
        DrawingType,
    >)
        ensures
            shapes(r@) == self.render_shapes(shapes(drawings@), area_min),
    {
        let mut out: Vec<DrawingType> = Vec::new();
        let mut i: usize = 0;
        while i < drawings.len()
            invariant
                i <= drawings.len(),
                out@.len() == i,
                forall|k: int| 0 <= k < i ==> (#[trigger] out@[k])@ == self.render_shape(
                    drawings@[k]@,
                    area_min,
                ),
            decreases drawings.len() - i,
        {
            out.push(self.to_render(&drawings[i], area_min));
            i = i + 1;
        }
        assert(shapes(out@) =~= self.render_shapes(shapes(drawings@), area_min));
        out
    }
}

/// What is lost when a coordinate is scaled by `n / d` and then by `d / n`:
/// the result is never larger than the coordinate, falls short of it by at
/// most `d / n` rounded up, and equals it where `n` is a multiple of `d`.
pub proof fn lemma_scale_there_and_back(a: int, n: int, d: int)
    requires
        n > 0,
        d > 0,
    ensures
        scaled(scaled(a, n, d), d, n) <= a,
        a - scaled(scaled(a, n, d), d, n) <= (d + n - 1) / n,
        n % d == 0 ==> scaled(scaled(a, n, d), d, n) == a,
{
    let q = (a * n) / d;
    let r = (a * n) % d;
    lemma_fundamental_div_mod(a * n, d);
    let b = (q * d) / n;
    let s = (q * d) % n;
    lemma_fundamental_div_mod(q * d, n);
    let k = (d + n - 1) / n;
    let kr = (d + n - 1) % n;
    lemma_fundamental_div_mod(d + n - 1, n);
    assert(n * (a - b) == r + s) by (nonlinear_arith)
        requires
            a * n == d * q + r,
            q * d == n * b + s,
    ;
    assert(a - b >= 0) by (nonlinear_arith)
        requires
            n * (a - b) == r + s,
            r + s >= 0,
            n > 0,
    ;
    assert(a - b <= k) by (nonlinear_arith)
        requires
            n * (a - b) == r + s,
            r + s <= d + n - 2,
            d + n - 1 == n * k + kr,
            0 <= kr < n,
            n > 0,
    ;
    if n % d == 0 {
        let c = n / d;
        lemma_fundamental_div_mod(n, d);
        assert(a * n == (a * c) * d + 0) by (nonlinear_arith)
            requires
                n == d * c,
        ;
        lemma_fundamental_div_mod_converse(a * n, d, a * c, 0);
        assert(q * d == a * n + 0) by (nonlinear_arith)
            requires
                q == a * c,
                n == d * c,
        ;
        lemma_fundamental_div_mod_converse(q * d, n, a, 0);
    }
}

/// Whether mapping the render-space position `p` to the image stays within
/// what a coordinate holds.
pub open spec fn image_in_range(t: ViewportTransform, p: Point, area_min: Point) -> bool {
    let n = t.spec_image_extent() as int;
    let d = t.spec_render_extent() as int;
    &&& i32::MIN <= scaled(p.x - t.spec_origin().x, n, d) + area_min.x <= i32::MAX
    &&& i32::MIN <= scaled(p.y - t.spec_origin().y, n, d) + area_min.y <= i32::MAX
}

/// Whether mapping the image-space position `p` to the window stays within
/// what a coordinate holds.
pub open spec fn render_in_range(t: ViewportTransform, p: Point, area_min: Point) -> bool {
    let n = t.spec_image_extent() as int;
    let d = t.spec_render_extent() as int;
    &&& i32::MIN <= scaled(p.x - area_min.x, d, n) + t.spec_origin().x <= i32::MAX
    &&& i32::MIN <= scaled(p.y - area_min.y, d, n) + t.spec_origin().y <= i32::MAX
}

/// The most that a round trip through a scaling by `n / d` can lose.
pub open spec fn rounding_loss(n: int, d: int) -> int {
    (d + n - 1) / n
}

/// Mapping a window position to the image and back gives the position
/// again, up to rounding: with the same transform and the same selected
/// area, the result is at most `render_extent / image_extent` (rounded up)
/// pixels left of and above the position, and it is the position itself
/// where a window pixel shows a whole number of image pixels.
pub proof fn lemma_render_of_image(t: ViewportTransform, p: Point, area_min: Point)
    requires
        t.wf(),
        image_in_range(t, p, area_min),
    ensures
        ({
            let q = t.render_of(t.image_of(p, area_min), area_min);
            let loss = rounding_loss(t.spec_image_extent() as int, t.spec_render_extent() as int);
            &&& 0 <= p.x - q.x <= loss
            &&& 0 <= p.y - q.y <= loss
            &&& t.spec_image_extent() % t.spec_render_extent() == 0 ==> q == p
        }),
{
    let n = t.spec_image_extent() as int;
    let d = t.spec_render_extent() as int;
    lemma_scale_there_and_back(p.x - t.spec_origin().x, n, d);
    lemma_scale_there_and_back(p.y - t.spec_origin().y, n, d);
    crate::geometry::lemma_quotient_bound(d + n - 1, n);
}

/// Mapping an image position to the window and back gives the position
/// again, up to rounding: the result is at most `image_extent /
/// render_extent` (rounded up) pixels left of and above the position, and it
/// is the position itself where an image pixel is shown on a whole number of
/// window pixels.
pub proof fn lemma_image_of_render(t: ViewportTransform, p: Point, area_min: Point)
    requires
        t.wf(),
        render_in_range(t, p, area_min),
    ensures
        ({
            let q = t.image_of(t.render_of(p, area_min), area_min);
            let loss = rounding_loss(t.spec_render_extent() as int, t.spec_image_extent() as int);
            &&& 0 <= p.x - q.x <= loss
            &&& 0 <= p.y - q.y <= loss
            &&& t.spec_render_extent() % t.spec_image_extent() == 0 ==> q == p
        }),
{
    let n = t.spec_image_extent() as int;
    let d = t.spec_render_extent() as int;
    lemma_scale_there_and_back(p.x - area_min.x, d, n);
    lemma_scale_there_and_back(p.y - area_min.y, d, n);
    crate::geometry::lemma_quotient_bound(d + n - 1, d);
}


/// Where the image is shown in the window, and the transform that goes
/// with it.
#[derive(Clone, Copy, Debug, PartialEq, Eq)]
pub struct Viewport {
    pub area: Rect,
    pub transform: ViewportTransform,
}

/// The width at which an image of `iw` by `ih` pixels is shown in `aw` by
/// `ah` window pixels: all of `aw`, unless the image would then be taller
/// than `ah`.
pub open spec fn fitted_width(aw: int, ah: int, iw: int, ih: int) -> int {
    if scaled(aw, ih, iw) > ah {
        scaled(ah, iw, ih)
    } else {
        aw
    }
}

/// The height that goes with [`fitted_width`].
pub open spec fn fitted_height(aw: int, ah: int, iw: int, ih: int) -> int {
    if scaled(aw, ih, iw) > ah {
        ah
    } else {
        scaled(aw, ih, iw)
    }
}

/// Whether an image of extent `image` can be shown in `available`: neither
/// is empty, and the image is not so tall that nothing of its width is
/// left.
pub open spec fn can_fit(available: Rect, image: Size) -> bool {
    &&& image.width > 0
    &&& image.height > 0
    &&& available.spec_width() > 0
    &&& available.spec_height() >= 0
    &&& fitted_width(
        available.spec_width(),
        available.spec_height(),
        image.width as int,
        image.height as int,
    ) > 0
}

/// The fitted extent lies within what is available.
pub proof fn lemma_fitted_within(aw: int, ah: int, iw: int, ih: int)
    requires
        aw > 0,
        ah >= 0,
        iw > 0,
        ih > 0,
    ensures
        0 <= fitted_width(aw, ah, iw, ih) <= aw,
        0 <= fitted_height(aw, ah, iw, ih) <= ah,
{
    let h0 = (aw * ih) / iw;
    let r0 = (aw * ih) % iw;
    lemma_fundamental_div_mod(aw * ih, iw);
    assert(aw * ih >= 0) by (nonlinear_arith)
        requires
            aw > 0,
            ih > 0,
    ;
    crate::geometry::lemma_quotient_bound(aw * ih, iw);
    let w1 = (ah * iw) / ih;
    let r1 = (ah * iw) % ih;
    lemma_fundamental_div_mod(ah * iw, ih);
    assert(ah * iw >= 0) by (nonlinear_arith)
        requires
            ah >= 0,
            iw > 0,
    ;
    crate::geometry::lemma_quotient_bound(ah * iw, ih);
    if h0 > ah {
        assert(w1 <= aw) by (nonlinear_arith)
            requires
                aw * ih == iw * h0 + r0,
                0 <= r0,
                h0 >= ah + 1,
                ah * iw == ih * w1 + r1,
                0 <= r1,
                iw > 0,
                ih > 0,
        ;
    }
}

/// How an image of extent `image` is laid out in `available`: as large as
/// fits with the image's aspect ratio kept, and centred. None where
/// [`can_fit`] does not hold.
pub closed spec fn fitted(available: Rect, image: Size) -> Option<Viewport> {
    if can_fit(available, image) {
        let w = fitted_width(
            available.spec_width(),
            available.spec_height(),
            image.width as int,
            image.height as int,
        );
        let h = fitted_height(
            available.spec_width(),
            available.spec_height(),
            image.width as int,
            image.height as int,
        );
        let origin = Point {
            x: (available.min.x + (available.spec_width() - w) / 2) as i32,
            y: (available.min.y + (available.spec_height() - h) / 2) as i32,
        };
        Some(
            Viewport {
                area: Rect {
                    min: origin,
                    max: Point { x: (origin.x + w) as i32, y: (origin.y + h) as i32 },
                },
                transform: ViewportTransform {
                    image_extent: image.width as u32,
                    render_extent: w as u32,
                    origin,
                },
            },
        )
    } else {
        None
    }
}

/// What [`fitted`] gives, said of the layout `v`.
pub open spec fn is_fitted(v: Viewport, available: Rect, image: Size) -> bool {
    let w = fitted_width(
        available.spec_width(),
        available.spec_height(),
        image.width as int,
        image.height as int,
    );
    let h = fitted_height(
        available.spec_width(),
        available.spec_height(),
        image.width as int,
        image.height as int,
    );
    &&& v.transform.wf()
    &&& v.transform.spec_image_extent() == image.width
    &&& v.transform.spec_render_extent() == w
    &&& v.transform.spec_origin() == v.area.min
    &&& v.area.min.x == available.min.x + (available.spec_width() - w) / 2
    &&& v.area.min.y == available.min.y + (available.spec_height() - h) / 2
    &&& v.area.max.x == v.area.min.x + w
    &&& v.area.max.y == v.area.min.y + h
    &&& available.min.x <= v.area.min.x
    &&& v.area.max.x <= available.max.x
    &&& available.min.y <= v.area.min.y
    &&& v.area.max.y <= available.max.y
}

/// A layout exists exactly where the image can be fitted, and it is the
/// centred one.
pub proof fn lemma_fitted(available: Rect, image: Size)
    ensures
        fitted(available, image) is Some <==> can_fit(available, image),
        fitted(available, image) matches Some(v) ==> is_fitted(v, available, image),
{
    if can_fit(available, image) {
        lemma_fitted_within(
            available.spec_width(),
            available.spec_height(),
            image.width as int,
            image.height as int,
        );
    }
}

/// Lays the image out in what the window has free: as large as fits with
/// the image's aspect ratio kept, and centred. None where the image or the
/// free part is empty, or nothing of the image's width would be left.
pub fn fit(available: Rect, image: Size) -> (r: Option<Viewport>)
    ensures
        r == fitted(available, image),
        r is Some <==> can_fit(available, image),
        r matches Some(v) ==> is_fitted(v, available, image),
{
    let aw: i64 = available.width();
    let ah: i64 = available.height();
    if image.width <= 0 || image.height <= 0 || aw <= 0 || ah < 0 {
        return None;
    }
    let iw: u32 = image.width as u32;
    let ih: u32 = image.height as u32;
    proof {
        lemma_fitted_within(aw as int, ah as int, iw as int, ih as int);
    }
    let h0: i128 = scale(aw, ih, iw);
    let (w, h): (i64, i64) = if h0 > ah as i128 {
        (scale(ah, iw, ih) as i64, ah)
    } else {
        (aw, h0 as i64)
    };
    if w <= 0 {
        return None;
    }
    let x0: i32 = (available.min.x as i64 + (aw - w) / 2) as i32;
    let y0: i32 = (available.min.y as i64 + (ah - h) / 2) as i32;
    let x1: i32 = (x0 as i64 + w) as i32;
    let y1: i32 = (y0 as i64 + h) as i32;
    let origin = Point { x: x0, y: y0 };
    Some(
        Viewport {
            area: Rect { min: origin, max: Point { x: x1, y: y1 } },
            transform: ViewportTransform { image_extent: iw, render_extent: w as u32, origin },
        },
    )
}

/// A scaled value is no larger in magnitude than the value times the
/// numerator.
pub proof fn lemma_scaled_bound(v: int, num: int, den: int)
    requires
        den > 0,
        0 <= num <= 0xffff_ffff,
        -0x8000_0000_0000_0000 <= v <= 0x7fff_ffff_ffff_ffff,
    ensures
        -0x8000_0000_0000_0000 * 0x1_0000_0000 <= scaled(v, num, den) <= 0x8000_0000_0000_0000
            * 0x1_0000_0000,
{
    crate::geometry::lemma_product_bound(v, num);
    crate::geometry::lemma_quotient_bound(v * num, den);
}

} // verus!
