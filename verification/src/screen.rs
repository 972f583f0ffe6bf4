//! From clip space to the screen: the depth clip test, the perspective
//! divide and viewport transform, and the packing of colours.
use vstd::prelude::*;
use crate::command::{ClearColor, Vertex};
use crate::raster::{coord_ok, depth_ok, ScreenTriangle, Viewport};
use crate::scalar::{Scalar, HALF_RAW, ONE_RAW};
use crate::vector::{Vec3, Vec4};

verus! {

/// Whether a clip-space position passes the depth clip test: its `z` is
/// neither below `-w` nor above `w`. A position with `w` zero has no place
/// on the screen and does not pass.
pub open spec fn spec_survives_clip(v: Vec4) -> bool {
    -v.w.raw <= v.z.raw <= v.w.raw && v.w.raw != 0
}

/// Whether a clip-space position passes the depth clip test.
#[verifier::when_used_as_spec(spec_survives_clip)]
pub fn survives_clip(v: Vec4) -> (r: bool)
    ensures
        r == spec_survives_clip(v),
{
    let z: i128 = v.z.raw as i128;
    let w: i128 = v.w.raw as i128;
    -w <= z && z <= w && w != 0
}

/// Half of a viewport's extent of `n` pixels.
pub open spec fn spec_half_extent(n: u32) -> Scalar {
    Scalar { raw: (n * HALF_RAW) as i64 }
}

/// Half of a viewport's extent of `n` pixels, which is exact.
#[verifier::when_used_as_spec(spec_half_extent)]
pub fn half_extent(n: u32) -> (r: Scalar)
    ensures
        r == spec_half_extent(n),
        r.raw == n * HALF_RAW,
{
    let wide: i64 = n as i64;
    Scalar { raw: wide * HALF_RAW }
}

/// The sub-pixel step that a screen coordinate lies in: the coordinate in
/// units of 1/256, rounded down.
pub open spec fn spec_snap(s: Scalar) -> i64 {
    (s.raw / 0x100_0000) as i64
}

/// The sub-pixel step that a screen coordinate lies in.
#[verifier::when_used_as_spec(spec_snap)]
pub fn snap(s: Scalar) -> (r: i64)
    ensures
        r == spec_snap(s),
        r == s.raw / 0x100_0000,
        coord_ok(r),
{
    let raw: i64 = s.raw;
    assert(raw >> 24 == raw / 0x100_0000) by (bit_vector);
    raw >> 24
}

/// The number from 0 to 255 that stands for one component of a normal: the
/// component is taken from the range -1 to 1 onto 0 to 255, rounded to the
/// nearest whole number with halves going up, and held within 0 and 255.
pub open spec fn shade_channel(c: Scalar) -> int {
    let level = ((c.raw + ONE_RAW) * 255 + ONE_RAW) / 0x2_0000_0000;
    if level < 0 {
        0
    } else if level > 255 {
        255
    } else {
        level
    }
}

/// The number from 0 to 255 that stands for one component of a clear
/// colour: the component times 255, rounded down and held within 0 and 255.
pub open spec fn clear_channel(c: Scalar) -> int {
    let level = (c.raw * 255) / (ONE_RAW as int);
    if level < 0 {
        0
    } else if level > 255 {
        255
    } else {
        level
    }
}

/// The pixel whose four channels are `a`, `r`, `g` and `b`, each from 0 to
/// 255, with alpha in the highest byte and blue in the lowest.
pub open spec fn argb(a: int, r: int, g: int, b: int) -> u32 {
    (a * 0x100_0000 + r * 0x1_0000 + g * 0x100 + b) as u32
}

/// The opaque colour that shows a normal: red, green and blue stand for its
/// x, y and z.
pub open spec fn spec_normal_color(n: Vec3) -> u32 {
    argb(255, shade_channel(n.x), shade_channel(n.y), shade_channel(n.z))
}

/// The pixel that a clear colour fills the colour buffer with.
pub open spec fn spec_pack_clear_color(c: ClearColor) -> u32 {
    argb(
        clear_channel(c.alpha),
        clear_channel(c.red),
        clear_channel(c.green),
        clear_channel(c.blue),
    )
}

fn shade_level(c: Scalar) -> (r: u32)
    ensures
        r == shade_channel(c),
        r <= 255,
{
    let t: i128 = (c.raw as i128 + ONE_RAW as i128) * 255 + ONE_RAW as i128;
    if t < 0 {
        0
    } else {
        let q: i128 = t / 0x2_0000_0000;
        if q > 255 {
            255
        } else {
            q as u32
        }
    }
}

fn clear_level(c: Scalar) -> (r: u32)
    ensures
        r == clear_channel(c),
        r <= 255,
{
    let t: i128 = (c.raw as i128) * 255;
    if t < 0 {
        0
    } else {
        let q: i128 = t / 0x1_0000_0000;
        if q > 255 {
            255
        } else {
            q as u32
        }
    }
}

fn pack(a: u32, r: u32, g: u32, b: u32) -> (p: u32)
    requires
        a <= 255,
        r <= 255,
        g <= 255,
        b <= 255,
    ensures
        p == argb(a as int, r as int, g as int, b as int),
{
    a * 0x100_0000 + r * 0x1_0000 + g * 0x100 + b
}

/// The opaque colour that shows a normal.
#[verifier::when_used_as_spec(spec_normal_color)]
pub fn normal_color(n: Vec3) -> (p: u32)
    ensures
        p == spec_normal_color(n),
{
    pack(255, shade_level(n.x), shade_level(n.y), shade_level(n.z))
}

/// The pixel that a clear colour fills the colour buffer with.
#[verifier::when_used_as_spec(spec_pack_clear_color)]
pub fn pack_clear_color(c: ClearColor) -> (p: u32)
    ensures
        p == spec_pack_clear_color(c),
{
    pack(clear_level(c.alpha), clear_level(c.red), clear_level(c.green), clear_level(c.blue))
}

/// A number between `-w` and `w`, divided by `w` and taken from the range
/// -1 to 1 onto 0 to 1, is a depth.
pub proof fn lemma_screen_depth(z: Scalar, w: Scalar)
    requires
        -w.raw <= z.raw <= w.raw,
        w.raw != 0,
    ensures
        depth_ok(z.sat_div(w).sat_mul(Scalar::half()).sat_add(Scalar::half())),
{
    reveal(Scalar::spec_sat_div);
    reveal(Scalar::spec_sat_mul);
    let n = z.raw * ONE_RAW;
    let d = w.raw as int;
    assert(-(d * ONE_RAW) <= n <= d * ONE_RAW) by (nonlinear_arith)
        requires
            -d <= z.raw <= d,
            n == z.raw * ONE_RAW,
    ;
    if n >= 0 {
        assert(0 <= n / d <= ONE_RAW) by (nonlinear_arith)
            requires
                0 <= n <= d * ONE_RAW,
                d > 0,
        ;
    } else {
        assert(0 <= (-n) / d <= ONE_RAW) by (nonlinear_arith)
            requires
                0 <= -n <= d * ONE_RAW,
                d > 0,
        ;
    }
    let ndc = z.sat_div(w);
    assert(-ONE_RAW <= ndc.raw <= ONE_RAW);
}

/// The triangle that vertices passing the clip test make on the screen is
/// well-formed.
pub proof fn lemma_screen_triangle_wf(vp: Viewport, a: Vertex, b: Vertex, c: Vertex)
    requires
        survives_clip(a.position),
        survives_clip(b.position),
        survives_clip(c.position),
    ensures
        vp.spec_screen_triangle(a, b, c).wf(),
{
    lemma_screen_depth(a.position.z, a.position.w);
    lemma_screen_depth(b.position.z, b.position.w);
    lemma_screen_depth(c.position.z, c.position.w);
}

impl Viewport {
    /// The place on the screen of a clip-space position that passes the clip
    /// test: x and y in pixels, z from 0 at the near plane to 1 at the far
    /// plane. The position is divided by its `w`, scaled by half the
    /// viewport's extent and moved to the viewport's centre.
    pub open spec fn spec_to_screen(self, v: Vec4) -> Vec3 {
        Vec3 {
            x: v.x.sat_div(v.w).sat_mul(half_extent(self.width)).sat_add(
                Scalar::from_int(self.x).sat_add(half_extent(self.width)),
            ),
            y: v.y.sat_div(v.w).sat_mul(half_extent(self.height)).sat_add(
                Scalar::from_int(self.y).sat_add(half_extent(self.height)),
            ),
            z: v.z.sat_div(v.w).sat_mul(Scalar::half()).sat_add(Scalar::half()),
        }
    }

    /// The triangle on the screen that three vertices in clip space make:
    /// their places on the screen taken to the sub-pixel grid, their depths,
    /// and the colour of the first vertex's normal.
    pub open spec fn spec_screen_triangle(self, a: Vertex, b: Vertex, c: Vertex) -> ScreenTriangle {
        let p = self.to_screen(a.position);
        let q = self.to_screen(b.position);
        let r = self.to_screen(c.position);
        ScreenTriangle {
            x0: snap(p.x),
            y0: snap(p.y),
            x1: snap(q.x),
            y1: snap(q.y),
            x2: snap(r.x),
            y2: snap(r.y),
            z0: p.z,
            z1: q.z,
            z2: r.z,
            color: normal_color(a.normal),
        }
    }

    /// The place on the screen of a clip-space position.
    #[verifier::when_used_as_spec(spec_to_screen)]
    pub fn to_screen(self, v: Vec4) -> (s: Vec3)
        requires
            survives_clip(v),
        ensures
            s == self.spec_to_screen(v),
            depth_ok(s.z),
    {
        proof {
            lemma_screen_depth(v.z, v.w);
        }
        let hw = half_extent(self.width);
        let hh = half_extent(self.height);
        Vec3 {
            x: v.x.sat_div(v.w).sat_mul(hw).sat_add(Scalar::from_int(self.x).sat_add(hw)),
            y: v.y.sat_div(v.w).sat_mul(hh).sat_add(Scalar::from_int(self.y).sat_add(hh)),
            z: v.z.sat_div(v.w).sat_mul(Scalar::half()).sat_add(Scalar::half()),
        }
    }

    /// The triangle on the screen that three vertices in clip space make.
    #[verifier::when_used_as_spec(spec_screen_triangle)]
    pub fn screen_triangle(self, a: Vertex, b: Vertex, c: Vertex) -> (t: ScreenTriangle)
        requires
            survives_clip(a.position),
            survives_clip(b.position),
            survives_clip(c.position),
        ensures
            t == self.spec_screen_triangle(a, b, c),
            t.wf(),
    {
        let p = self.to_screen(a.position);
        let q = self.to_screen(b.position);
        let r = self.to_screen(c.position);
        ScreenTriangle {
            x0: snap(p.x),
            y0: snap(p.y),
            x1: snap(q.x),
            y1: snap(q.y),
            x2: snap(r.x),
            y2: snap(r.y),
            z0: p.z,
            z1: q.z,
            z2: r.z,
            color: normal_color(a.normal),
        }
    }
}

} // verus!
