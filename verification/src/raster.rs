//! The rasterizer: which pixels a screen-space triangle covers, at what
//! depth, and what drawing it does to the colour and depth buffers.
//!
//! Screen positions are taken at a resolution of 1/256 of a pixel. At that
//! resolution the three edge functions of a triangle are integers and are
//! computed without rounding, so coverage is an exact geometric test and
//! stepping an edge function from one pixel to the next yields the very value
//! that evaluating it afresh would.
use vstd::prelude::*;
use vstd::math::{max, min};
use crate::scalar::{lemma_mul_bounds, Scalar, ONE_RAW};

verus! {

/// Width of the surface in pixels.
pub const WIDTH: usize = 640;

/// Height of the surface in pixels.
pub const HEIGHT: usize = 480;

/// Number of pixels of the surface.
pub const PIXELS: usize = 307200;

/// Sub-pixel steps in one pixel.
pub const SUBPIXELS: i64 = 256;

/// The greatest magnitude of a screen coordinate, in sub-pixel steps.
pub const COORD_LIMIT: i64 = 0x80_0000_0000;

/// The rectangle of the surface that drawing is confined to, in pixels.
#[derive(Clone, Copy, Debug, PartialEq, Eq, Structural)]
pub struct Viewport {
    pub x: i32,
    pub y: i32,
    pub width: u32,
    pub height: u32,
}

/// A triangle on the screen: the positions of its corners in sub-pixel steps,
/// their depths, and the one colour it is filled with.
#[derive(Clone, Copy, Debug, PartialEq, Eq, Structural)]
pub struct ScreenTriangle {
    pub x0: i64,
    pub y0: i64,
    pub x1: i64,
    pub y1: i64,
    pub x2: i64,
    pub y2: i64,
    pub z0: Scalar,
    pub z1: Scalar,
    pub z2: Scalar,
    pub color: u32,
}

/// A rectangle of pixels, both ends included; empty where an end lies before
/// its beginning.
#[derive(Clone, Copy, Debug, PartialEq, Eq, Structural)]
pub struct PixelBox {
    pub min_x: i64,
    pub max_x: i64,
    pub min_y: i64,
    pub max_y: i64,
}

/// Twice the signed area of the triangle `a`, `b`, `c`: positive where the
/// three turn counter-clockwise, zero where they lie on a line.
pub open spec fn orient2d(ax: int, ay: int, bx: int, by: int, cx: int, cy: int) -> int {
    (bx - ax) * (cy - ay) - (by - ay) * (cx - ax)
}

/// The centre of pixel `p` along one axis, in sub-pixel steps.
pub open spec fn sample(p: int) -> int {
    SUBPIXELS * p + 128
}

/// The column of the pixel stored at index `i` of a buffer.
pub open spec fn pixel_x(i: int) -> int {
    i % 640
}

/// The row of the pixel stored at index `i` of a buffer, counted upward from
/// the bottom of the screen: buffers hold the top row first.
pub open spec fn pixel_y(i: int) -> int {
    479 - i / 640
}

/// The index in a buffer of the pixel in column `x` of row `y`.
pub open spec fn pixel_index(x: int, y: int) -> int {
    (479 - y) * 640 + x
}

/// Whether a coordinate is within the range that positions are kept in.
pub open spec fn coord_ok(c: i64) -> bool {
    -COORD_LIMIT <= c < COORD_LIMIT
}

/// Whether a depth is between 0, the near plane, and 1, the far plane.
pub open spec fn depth_ok(d: Scalar) -> bool {
    0 <= d.raw <= ONE_RAW
}

/// Whether every depth of a buffer is between 0 and 1.
#[verifier::opaque]
pub open spec fn depths_ok(depth: Seq<Scalar>) -> bool {
    forall|i: int| 0 <= i < depth.len() ==> depth_ok(#[trigger] depth[i])
}

impl ScreenTriangle {
    /// Every corner is within the range that positions are kept in, and
    /// its depth is between 0 and 1.
    pub open spec fn wf(self) -> bool {
        &&& coord_ok(self.x0)
        &&& coord_ok(self.y0)
        &&& coord_ok(self.x1)
        &&& coord_ok(self.y1)
        &&& coord_ok(self.x2)
        &&& coord_ok(self.y2)
        &&& depth_ok(self.z0)
        &&& depth_ok(self.z1)
        &&& depth_ok(self.z2)
    }

    /// Twice the signed area of the triangle.
    pub open spec fn area(self) -> int {
        orient2d(
            self.x0 as int,
            self.y0 as int,
            self.x1 as int,
            self.y1 as int,
            self.x2 as int,
            self.y2 as int,
        )
    }

    /// The edge function of the side opposite corner 0 at the centre of pixel
    /// `(x, y)`.
    pub open spec fn edge0(self, x: int, y: int) -> int {
        orient2d(
            self.x1 as int,
            self.y1 as int,
            self.x2 as int,
            self.y2 as int,
            sample(x),
            sample(y),
        )
    }

    /// The edge function of the side opposite corner 1 at the centre of pixel
    /// `(x, y)`.
    pub open spec fn edge1(self, x: int, y: int) -> int {
        orient2d(
            self.x2 as int,
            self.y2 as int,
            self.x0 as int,
            self.y0 as int,
            sample(x),
            sample(y),
        )
    }

    /// The edge function of the side opposite corner 2 at the centre of pixel
    /// `(x, y)`.
    pub open spec fn edge2(self, x: int, y: int) -> int {
        orient2d(
            self.x0 as int,
            self.y0 as int,
            self.x1 as int,
            self.y1 as int,
            sample(x),
            sample(y),
        )
    }

    /// Whether the centre of pixel `(x, y)` is inside the triangle or on its
    /// border. A triangle without area, or one that turns clockwise, covers
    /// nothing.
    pub open spec fn covers(self, x: int, y: int) -> bool {
        &&& self.area() > 0
        &&& self.edge0(x, y) >= 0
        &&& self.edge1(x, y) >= 0
        &&& self.edge2(x, y) >= 0
    }

    /// The depth of the triangle at the centre of pixel `(x, y)`: the depths
    /// of the corners, each weighted by the share of the area that its edge
    /// function's value is, summed without rounding and then rounded down.
    pub open spec fn depth_at(self, x: int, y: int) -> Scalar {
        Scalar {
            raw: ((self.edge0(x, y) * self.z0.raw + self.edge1(x, y) * self.z1.raw + self.edge2(
                x,
                y,
            ) * self.z2.raw) / self.area()) as i64,
        }
    }

    /// The first column that the triangle can touch: where its leftmost
    /// corner lies, but not left of the viewport or of the surface.
    pub open spec fn box_min_x(self, vp: Viewport) -> int {
        max(max(min(min(self.x0 as int, self.x1 as int), self.x2 as int) / 256, vp.x as int), 0)
    }

    /// The last column that the triangle can touch.
    pub open spec fn box_max_x(self, vp: Viewport) -> int {
        min(
            min(
                (max(max(self.x0 as int, self.x1 as int), self.x2 as int) + 255) / 256,
                vp.x + vp.width - 1,
            ),
            639,
        )
    }

    /// The first row that the triangle can touch.
    pub open spec fn box_min_y(self, vp: Viewport) -> int {
        max(max(min(min(self.y0 as int, self.y1 as int), self.y2 as int) / 256, vp.y as int), 0)
    }

    /// The last row that the triangle can touch.
    pub open spec fn box_max_y(self, vp: Viewport) -> int {
        min(
            min(
                (max(max(self.y0 as int, self.y1 as int), self.y2 as int) + 255) / 256,
                vp.y + vp.height - 1,
            ),
            479,
        )
    }

    /// Whether pixel `(x, y)` is in the triangle's bounding box as the
    /// viewport and the surface confine it.
    pub open spec fn in_box(self, vp: Viewport, x: int, y: int) -> bool {
        &&& self.box_min_x(vp) <= x <= self.box_max_x(vp)
        &&& self.box_min_y(vp) <= y <= self.box_max_y(vp)
    }

    /// The fragment that the triangle emits at pixel `(x, y)`: its depth
    /// there, where the pixel is in the box and covered; else none.
    pub open spec fn fragment(self, vp: Viewport, x: int, y: int) -> Option<Scalar> {
        if self.in_box(vp, x, y) && self.covers(x, y) {
            Some(self.depth_at(x, y))
        } else {
            None
        }
    }

    /// Whether the triangle's fragment at buffer index `i` passes the depth
    /// test against the depth `stored` there: it exists and is strictly
    /// nearer.
    pub open spec fn wins(self, vp: Viewport, i: int, stored: Scalar) -> bool {
        match self.fragment(vp, pixel_x(i), pixel_y(i)) {
            Some(d) => d.raw < stored.raw,
            None => false,
        }
    }

    /// The colour buffer after the triangle is drawn over `back`, with
    /// `depth` the depth buffer before.
    pub open spec fn drawn_colors(self, vp: Viewport, back: Seq<u32>, depth: Seq<Scalar>) -> Seq<
        u32,
    > {
        Seq::new(
            back.len(),
            |i: int|
                if self.wins(vp, i, depth[i]) {
                    self.color
                } else {
                    back[i]
                },
        )
    }

    /// The depth buffer after the triangle is drawn over `depth`: a winning
    /// fragment stores its depth where `mask` allows depth writes.
    pub open spec fn drawn_depths(self, vp: Viewport, depth: Seq<Scalar>, mask: bool) -> Seq<
        Scalar,
    > {
        Seq::new(
            depth.len(),
            |i: int|
                if mask && self.wins(vp, i, depth[i]) {
                    self.depth_at(pixel_x(i), pixel_y(i))
                } else {
                    depth[i]
                },
        )
    }
}


/// Moving the third point one pixel to the right changes `orient2d` by 256
/// times the first point's height over the second.
pub proof fn lemma_orient_step_x(ax: int, ay: int, bx: int, by: int, cx: int, cy: int)
    by (nonlinear_arith)
    ensures
        orient2d(ax, ay, bx, by, cx + 256, cy) == orient2d(ax, ay, bx, by, cx, cy) + 256 * (ay
            - by),
{
}

/// Moving the third point one pixel up changes `orient2d` by 256 times the
/// second point's lead over the first.
pub proof fn lemma_orient_step_y(ax: int, ay: int, bx: int, by: int, cx: int, cy: int)
    by (nonlinear_arith)
    ensures
        orient2d(ax, ay, bx, by, cx, cy + 256) == orient2d(ax, ay, bx, by, cx, cy) + 256 * (bx
            - ax),
{
}

/// The product of two differences, multiplied out.
proof fn lemma_expand(a: int, b: int, c: int, d: int)
    by (nonlinear_arith)
    ensures
        (a - b) * (c - d) == a * c - a * d - b * c + b * d,
        a * c == c * a,
        a * d == d * a,
        b * c == c * b,
        b * d == d * b,
{
}

/// The three edge functions of a triangle add up to its area at every point.
pub proof fn lemma_edges_sum(
    x0: int,
    y0: int,
    x1: int,
    y1: int,
    x2: int,
    y2: int,
    px: int,
    py: int,
)
    ensures
        orient2d(x1, y1, x2, y2, px, py) + orient2d(x2, y2, x0, y0, px, py) + orient2d(
            x0,
            y0,
            x1,
            y1,
            px,
            py,
        ) == orient2d(x0, y0, x1, y1, x2, y2),
{
    lemma_expand(x2, x1, py, y1);
    lemma_expand(y2, y1, px, x1);
    lemma_expand(x0, x2, py, y2);
    lemma_expand(y0, y2, px, x2);
    lemma_expand(x1, x0, py, y0);
    lemma_expand(y1, y0, px, x0);
    lemma_expand(x1, x0, y2, y0);
    lemma_expand(y1, y0, x2, x0);
}

/// `orient2d` of points within the coordinate range stays far inside `i128`.
pub proof fn lemma_orient_bounds(ax: int, ay: int, bx: int, by: int, cx: int, cy: int)
    requires
        -COORD_LIMIT <= ax <= COORD_LIMIT,
        -COORD_LIMIT <= ay <= COORD_LIMIT,
        -COORD_LIMIT <= bx <= COORD_LIMIT,
        -COORD_LIMIT <= by <= COORD_LIMIT,
        -COORD_LIMIT <= cx <= COORD_LIMIT,
        -COORD_LIMIT <= cy <= COORD_LIMIT,
    ensures
        -0x1_0000_0000_0000_0000_0000 <= (bx - ax) * (cy - ay) <= 0x1_0000_0000_0000_0000_0000,
        -0x1_0000_0000_0000_0000_0000 <= (by - ay) * (cx - ax) <= 0x1_0000_0000_0000_0000_0000,
        -0x2_0000_0000_0000_0000_0000 <= orient2d(ax, ay, bx, by, cx, cy)
            <= 0x2_0000_0000_0000_0000_0000,
{
    lemma_mul_bounds(bx - ax, cy - ay, 0x100_0000_0000, 0x100_0000_0000);
    lemma_mul_bounds(by - ay, cx - ax, 0x100_0000_0000, 0x100_0000_0000);
    assert(0x100_0000_0000int * 0x100_0000_0000int == 0x1_0000_0000_0000_0000_0000int)
        by (nonlinear_arith);
}

/// The value of `orient2d` for points within the coordinate range.
pub fn orient(ax: i64, ay: i64, bx: i64, by: i64, cx: i64, cy: i64) -> (r: i128)
    requires
        -COORD_LIMIT <= ax <= COORD_LIMIT,
        -COORD_LIMIT <= ay <= COORD_LIMIT,
        -COORD_LIMIT <= bx <= COORD_LIMIT,
        -COORD_LIMIT <= by <= COORD_LIMIT,
        -COORD_LIMIT <= cx <= COORD_LIMIT,
        -COORD_LIMIT <= cy <= COORD_LIMIT,
    ensures
        r == orient2d(ax as int, ay as int, bx as int, by as int, cx as int, cy as int),
        -0x2_0000_0000_0000_0000_0000 <= r <= 0x2_0000_0000_0000_0000_0000,
{
    proof {
        lemma_orient_bounds(ax as int, ay as int, bx as int, by as int, cx as int, cy as int);
    }
    let ux: i128 = (bx - ax) as i128;
    let uy: i128 = (by - ay) as i128;
    let vx: i128 = (cx - ax) as i128;
    let vy: i128 = (cy - ay) as i128;
    ux * vy - uy * vx
}

/// A mean of depths between 0 and 1 is between 0 and 1: weights that are
/// not negative and add up to what they are divided by.
pub proof fn lemma_weighted_depth_bounds(
    w0: int,
    w1: int,
    w2: int,
    area: int,
    z0: int,
    z1: int,
    z2: int,
)
    requires
        0 <= w0,
        0 <= w1,
        0 <= w2,
        w0 + w1 + w2 == area,
        0 < area,
        0 <= z0 <= ONE_RAW,
        0 <= z1 <= ONE_RAW,
        0 <= z2 <= ONE_RAW,
    ensures
        0 <= w0 * z0 <= w0 * ONE_RAW,
        0 <= w1 * z1 <= w1 * ONE_RAW,
        0 <= w2 * z2 <= w2 * ONE_RAW,
        0 <= w0 * z0 + w1 * z1 + w2 * z2 <= area * ONE_RAW,
        0 <= (w0 * z0 + w1 * z1 + w2 * z2) / area <= ONE_RAW,
{
    assert(0 <= w0 * z0 <= w0 * ONE_RAW) by (nonlinear_arith)
        requires
            0 <= w0,
            0 <= z0 <= ONE_RAW,
    ;
    assert(0 <= w1 * z1 <= w1 * ONE_RAW) by (nonlinear_arith)
        requires
            0 <= w1,
            0 <= z1 <= ONE_RAW,
    ;
    assert(0 <= w2 * z2 <= w2 * ONE_RAW) by (nonlinear_arith)
        requires
            0 <= w2,
            0 <= z2 <= ONE_RAW,
    ;
    assert(w0 * ONE_RAW + w1 * ONE_RAW + w2 * ONE_RAW == area * ONE_RAW) by (nonlinear_arith)
        requires
            w0 + w1 + w2 == area,
    ;
    let sum = w0 * z0 + w1 * z1 + w2 * z2;
    assert(0 <= sum / area <= ONE_RAW) by (nonlinear_arith)
        requires
            0 <= sum <= area * ONE_RAW,
            0 < area,
    ;
}

/// The depth at a covered pixel of a well-formed triangle is between 0 and 1.
pub proof fn lemma_depth_in_range(t: ScreenTriangle, x: int, y: int)
    requires
        t.wf(),
        t.covers(x, y),
    ensures
        depth_ok(t.depth_at(x, y)),
{
    lemma_edges_sum(
        t.x0 as int,
        t.y0 as int,
        t.x1 as int,
        t.y1 as int,
        t.x2 as int,
        t.y2 as int,
        sample(x),
        sample(y),
    );
    lemma_weighted_depth_bounds(
        t.edge0(x, y),
        t.edge1(x, y),
        t.edge2(x, y),
        t.area(),
        t.z0.raw as int,
        t.z1.raw as int,
        t.z2.raw as int,
    );
}

/// Drawing a well-formed triangle keeps every depth between 0 and 1.
pub proof fn lemma_drawn_depths_ok(t: ScreenTriangle, vp: Viewport, depth: Seq<Scalar>, mask: bool)
    requires
        t.wf(),
        depths_ok(depth),
    ensures
        depths_ok(t.drawn_depths(vp, depth, mask)),
{
    reveal(depths_ok);
    let drawn = t.drawn_depths(vp, depth, mask);
    assert forall|i: int| 0 <= i < drawn.len() implies depth_ok(#[trigger] drawn[i]) by {
        assert(depth_ok(depth[i]));
        if mask && t.wins(vp, i, depth[i]) {
            lemma_depth_in_range(t, pixel_x(i), pixel_y(i));
        }
    }
}

/// The mean of three depths between 0 and 1 under weights that are not
/// negative and add up to `area`, rounded down.
pub fn interpolate(w0: i128, w1: i128, w2: i128, area: i128, z0: Scalar, z1: Scalar, z2: Scalar) -> (r:
    Scalar)
    requires
        0 <= w0,
        0 <= w1,
        0 <= w2,
        w0 + w1 + w2 == area,
        0 < area <= 0x2_0000_0000_0000_0000_0000,
        depth_ok(z0),
        depth_ok(z1),
        depth_ok(z2),
    ensures
        r.raw == (w0 * z0.raw + w1 * z1.raw + w2 * z2.raw) / (area as int),
        depth_ok(r),
{
    proof {
        lemma_weighted_depth_bounds(
            w0 as int,
            w1 as int,
            w2 as int,
            area as int,
            z0.raw as int,
            z1.raw as int,
            z2.raw as int,
        );
        assert(w0 * ONE_RAW <= 0x2_0000_0000_0000_0000_0000 * 0x1_0000_0000) by (nonlinear_arith)
            requires
                0 <= w0 <= 0x2_0000_0000_0000_0000_0000,
        ;
        assert(w1 * ONE_RAW <= 0x2_0000_0000_0000_0000_0000 * 0x1_0000_0000) by (nonlinear_arith)
            requires
                0 <= w1 <= 0x2_0000_0000_0000_0000_0000,
        ;
        assert(w2 * ONE_RAW <= 0x2_0000_0000_0000_0000_0000 * 0x1_0000_0000) by (nonlinear_arith)
            requires
                0 <= w2 <= 0x2_0000_0000_0000_0000_0000,
        ;
    }
    let sum: i128 = w0 * (z0.raw as i128) + w1 * (z1.raw as i128) + w2 * (z2.raw as i128);
    let q: i128 = sum / area;
    Scalar { raw: q as i64 }
}

impl ScreenTriangle {
    /// The triangle's bounding box in pixels, as the viewport and the surface
    /// confine it.
    pub fn bounds(&self, vp: Viewport) -> (b: PixelBox)
        requires
            self.wf(),
        ensures
            b.min_x == self.box_min_x(vp),
            b.max_x == self.box_max_x(vp),
            b.min_y == self.box_min_y(vp),
            b.max_y == self.box_max_y(vp),
    {
        let left: i64 = floor_pixel(least(self.x0, self.x1, self.x2));
        let right: i64 = ceil_pixel(greatest(self.x0, self.x1, self.x2));
        let bottom: i64 = floor_pixel(least(self.y0, self.y1, self.y2));
        let top: i64 = ceil_pixel(greatest(self.y0, self.y1, self.y2));
        let vx: i64 = vp.x as i64;
        let vy: i64 = vp.y as i64;
        let vr: i64 = vx + (vp.width as i64) - 1;
        let vt: i64 = vy + (vp.height as i64) - 1;
        PixelBox {
            min_x: greatest(left, vx, 0),
            max_x: least(right, vr, 639),
            min_y: greatest(bottom, vy, 0),
            max_y: least(top, vt, 479),
        }
    }

    /// Draws the triangle into the colour buffer `back` and the depth buffer
    /// `depth`: at every pixel where it emits a fragment that is strictly
    /// nearer than the stored depth, the colour is replaced, and the depth
    /// too where `mask` allows. All other pixels keep what they hold.
    pub fn fill(&self, back: &mut Vec<u32>, depth: &mut Vec<Scalar>, mask: bool, vp: Viewport)
        requires
            self.wf(),
            old(back).len() == PIXELS,
            old(depth).len() == PIXELS,
        ensures
            final(back)@ == self.drawn_colors(vp, old(back)@, old(depth)@),
            final(depth)@ == self.drawn_depths(vp, old(depth)@, mask),
    {
        let ghost back0 = back@;
        let ghost depth0 = depth@;
        let b = self.bounds(vp);
        let area: i128 = orient(self.x0, self.y0, self.x1, self.y1, self.x2, self.y2);
        if area <= 0 || b.min_x > b.max_x || b.min_y > b.max_y {
            proof {
                assert(back@ =~= self.drawn_colors(vp, back0, depth0));
                assert(depth@ =~= self.drawn_depths(vp, depth0, mask));
            }
            return ;
        }
        let step_x0: i128 = 256 * ((self.y1 - self.y2) as i128);
        let step_x1: i128 = 256 * ((self.y2 - self.y0) as i128);
        let step_x2: i128 = 256 * ((self.y0 - self.y1) as i128);
        let step_y0: i128 = 256 * ((self.x2 - self.x1) as i128);
        let step_y1: i128 = 256 * ((self.x0 - self.x2) as i128);
        let step_y2: i128 = 256 * ((self.x1 - self.x0) as i128);
        let start_x: i64 = 256 * b.min_x + 128;
        let start_y: i64 = 256 * b.min_y + 128;
        let mut row0: i128 = orient(self.x1, self.y1, self.x2, self.y2, start_x, start_y);
        let mut row1: i128 = orient(self.x2, self.y2, self.x0, self.y0, start_x, start_y);
        let mut row2: i128 = orient(self.x0, self.y0, self.x1, self.y1, start_x, start_y);
        let mut y: i64 = b.min_y;
        while y <= b.max_y
            invariant
                self.wf(),
                back.len() == PIXELS,
                depth.len() == PIXELS,
                back0.len() == PIXELS,
                depth0.len() == PIXELS,
                b.min_x == self.box_min_x(vp),
                b.max_x == self.box_max_x(vp),
                b.min_y == self.box_min_y(vp),
                b.max_y == self.box_max_y(vp),
                0 <= b.min_x <= b.max_x <= 639,
                0 <= b.min_y <= y <= b.max_y + 1 <= 480,
                area == self.area(),
                0 < area <= 0x2_0000_0000_0000_0000_0000,
                step_x0 == 256 * (self.y1 - self.y2),
                step_x1 == 256 * (self.y2 - self.y0),
                step_x2 == 256 * (self.y0 - self.y1),
                step_y0 == 256 * (self.x2 - self.x1),
                step_y1 == 256 * (self.x0 - self.x2),
                step_y2 == 256 * (self.x1 - self.x0),
                row0 == self.edge0(b.min_x as int, y as int),
                row1 == self.edge1(b.min_x as int, y as int),
                row2 == self.edge2(b.min_x as int, y as int),
                forall|i: int|
                    0 <= i < PIXELS ==> back@[i] == if pixel_y(i) < y && self.wins(
                        vp,
                        i,
                        depth0[i],
                    ) {
                        self.color
                    } else {
                        back0[i]
                    },
                forall|i: int|
                    0 <= i < PIXELS ==> depth@[i] == if pixel_y(i) < y && mask && self.wins(
                        vp,
                        i,
                        depth0[i],
                    ) {
                        self.depth_at(pixel_x(i), pixel_y(i))
                    } else {
                        depth0[i]
                    },
            decreases b.max_y + 1 - y,
        {
            let mut w0: i128 = row0;
            let mut w1: i128 = row1;
            let mut w2: i128 = row2;
            let mut x: i64 = b.min_x;
            while x <= b.max_x
                invariant
                    self.wf(),
                    back.len() == PIXELS,
                    depth.len() == PIXELS,
                    back0.len() == PIXELS,
                    depth0.len() == PIXELS,
                    b.min_x == self.box_min_x(vp),
                    b.max_x == self.box_max_x(vp),
                    b.min_y == self.box_min_y(vp),
                    b.max_y == self.box_max_y(vp),
                    0 <= b.min_x <= x <= b.max_x + 1 <= 640,
                    0 <= b.min_y <= y <= b.max_y <= 479,
                    area == self.area(),
                    0 < area <= 0x2_0000_0000_0000_0000_0000,
                    step_x0 == 256 * (self.y1 - self.y2),
                    step_x1 == 256 * (self.y2 - self.y0),
                    step_x2 == 256 * (self.y0 - self.y1),
                    w0 == self.edge0(x as int, y as int),
                    w1 == self.edge1(x as int, y as int),
                    w2 == self.edge2(x as int, y as int),
                    forall|i: int|
                        0 <= i < PIXELS ==> back@[i] == if (pixel_y(i) < y || (pixel_y(i) == y
                            && pixel_x(i) < x)) && self.wins(vp, i, depth0[i]) {
                            self.color
                        } else {
                            back0[i]
                        },
                    forall|i: int|
                        0 <= i < PIXELS ==> depth@[i] == if (pixel_y(i) < y || (pixel_y(i) == y
                            && pixel_x(i) < x)) && mask && self.wins(vp, i, depth0[i]) {
                            self.depth_at(pixel_x(i), pixel_y(i))
                        } else {
                            depth0[i]
                        },
                decreases b.max_x + 1 - x,
            {
                let i: usize = ((479 - y) * 640 + x) as usize;
                assert(pixel_x(i as int) == x && pixel_y(i as int) == y);
                proof {
                    lemma_edges_sum(
                        self.x0 as int,
                        self.y0 as int,
                        self.x1 as int,
                        self.y1 as int,
                        self.x2 as int,
                        self.y2 as int,
                        sample(x as int),
                        sample(y as int),
                    );
                }
                if w0 >= 0 && w1 >= 0 && w2 >= 0 {
                    let d: Scalar = interpolate(w0, w1, w2, area, self.z0, self.z1, self.z2);
                    assert(d == self.depth_at(x as int, y as int));
                    assert(self.fragment(vp, x as int, y as int) == Some(d));
                    if d.lt(depth[i]) {
                        back[i] = self.color;
                        if mask {
                            depth[i] = d;
                        }
                    }
                } else {
                    assert(self.fragment(vp, x as int, y as int).is_none());
                }
                proof {
                    lemma_orient_step_x(
                        self.x1 as int,
                        self.y1 as int,
                        self.x2 as int,
                        self.y2 as int,
                        sample(x as int),
                        sample(y as int),
                    );
                    lemma_orient_step_x(
                        self.x2 as int,
                        self.y2 as int,
                        self.x0 as int,
                        self.y0 as int,
                        sample(x as int),
                        sample(y as int),
                    );
                    lemma_orient_step_x(
                        self.x0 as int,
                        self.y0 as int,
                        self.x1 as int,
                        self.y1 as int,
                        sample(x as int),
                        sample(y as int),
                    );
                    lemma_orient_bounds(
                        self.x1 as int,
                        self.y1 as int,
                        self.x2 as int,
                        self.y2 as int,
                        sample(x + 1),
                        sample(y as int),
                    );
                    lemma_orient_bounds(
                        self.x2 as int,
                        self.y2 as int,
                        self.x0 as int,
                        self.y0 as int,
                        sample(x + 1),
                        sample(y as int),
                    );
                    lemma_orient_bounds(
                        self.x0 as int,
                        self.y0 as int,
                        self.x1 as int,
                        self.y1 as int,
                        sample(x + 1),
                        sample(y as int),
                    );
                }
                w0 = w0 + step_x0;
                w1 = w1 + step_x1;
                w2 = w2 + step_x2;
                x = x + 1;
            }
            proof {
                lemma_orient_step_y(
                    self.x1 as int,
                    self.y1 as int,
                    self.x2 as int,
                    self.y2 as int,
                    sample(b.min_x as int),
                    sample(y as int),
                );
                lemma_orient_step_y(
                    self.x2 as int,
                    self.y2 as int,
                    self.x0 as int,
                    self.y0 as int,
                    sample(b.min_x as int),
                    sample(y as int),
                );
                lemma_orient_step_y(
                    self.x0 as int,
                    self.y0 as int,
                    self.x1 as int,
                    self.y1 as int,
                    sample(b.min_x as int),
                    sample(y as int),
                );
                lemma_orient_bounds(
                    self.x1 as int,
                    self.y1 as int,
                    self.x2 as int,
                    self.y2 as int,
                    sample(b.min_x as int),
                    sample(y + 1),
                );
                lemma_orient_bounds(
                    self.x2 as int,
                    self.y2 as int,
                    self.x0 as int,
                    self.y0 as int,
                    sample(b.min_x as int),
                    sample(y + 1),
                );
                lemma_orient_bounds(
                    self.x0 as int,
                    self.y0 as int,
                    self.x1 as int,
                    self.y1 as int,
                    sample(b.min_x as int),
                    sample(y + 1),
                );
            }
            row0 = row0 + step_y0;
            row1 = row1 + step_y1;
            row2 = row2 + step_y2;
            y = y + 1;
        }
        proof {
            assert(back@ =~= self.drawn_colors(vp, back0, depth0));
            assert(depth@ =~= self.drawn_depths(vp, depth0, mask));
        }
    }
}

/// The least of three numbers.
pub fn least(a: i64, b: i64, c: i64) -> (r: i64)
    ensures
        r == min(min(a as int, b as int), c as int),
{
    let m: i64 = if a < b {
        a
    } else {
        b
    };
    if m < c {
        m
    } else {
        c
    }
}

/// The greatest of three numbers.
pub fn greatest(a: i64, b: i64, c: i64) -> (r: i64)
    ensures
        r == max(max(a as int, b as int), c as int),
{
    let m: i64 = if a > b {
        a
    } else {
        b
    };
    if m > c {
        m
    } else {
        c
    }
}

/// The pixel that the sub-pixel coordinate `c` lies in.
pub fn floor_pixel(c: i64) -> (r: i64)
    ensures
        r == c / 256,
{
    assert(c >> 8 == c / 256) by (bit_vector);
    c >> 8
}

/// The first pixel boundary at or after the sub-pixel coordinate `c`.
pub fn ceil_pixel(c: i64) -> (r: i64)
    requires
        c <= COORD_LIMIT,
    ensures
        r == (c + 255) / 256,
{
    let up: i64 = c + 255;
    assert(up >> 8 == up / 256) by (bit_vector);
    up >> 8
}

} // verus!
