//! What holds of the pipeline whatever it is given: statements about the
//! state machine and the rasterizer, each proved from their definitions.
use vstd::prelude::*;
use vstd::math::{max, min};
use crate::command::{Command, PrimitiveMode, Vertex};
use crate::raster::{pixel_x, pixel_y, ScreenTriangle, Viewport, PIXELS};
use crate::scalar::Scalar;
use crate::frame::lemma_draw_frame;
use crate::screen::survives_clip;
use crate::state::State;

verus! {

/// A triangle that emits no fragment leaves both buffers as they are.
pub proof fn lemma_no_fragment_no_change(
    t: ScreenTriangle,
    vp: Viewport,
    back: Seq<u32>,
    depth: Seq<Scalar>,
    mask: bool,
)
    requires
        forall|x: int, y: int| t.fragment(vp, x, y).is_none(),
    ensures
        t.drawn_colors(vp, back, depth) == back,
        t.drawn_depths(vp, depth, mask) == depth,
{
    assert forall|i: int| 0 <= i < back.len() implies !t.wins(vp, i, depth[i]) by {
        assert(t.fragment(vp, pixel_x(i), pixel_y(i)).is_none());
    }
    assert forall|i: int| 0 <= i < depth.len() implies !t.wins(vp, i, depth[i]) by {
        assert(t.fragment(vp, pixel_x(i), pixel_y(i)).is_none());
    }
    assert(t.drawn_colors(vp, back, depth) =~= back);
    assert(t.drawn_depths(vp, depth, mask) =~= depth);
}

/// A triangle of which a vertex fails the depth clip test, its `z` below
/// `-w` or above `w`, writes no pixel and no depth.
pub proof fn law_clipped_triangle_draws_nothing(s: State, a: Vertex, b: Vertex, c: Vertex)
    requires
        !survives_clip(a.position) || !survives_clip(b.position) || !survives_clip(c.position),
    ensures
        s.draw(a, b, c) == s,
{
    reveal(State::draw);
}

/// The depth test: drawing a triangle changes a pixel's colour only where the
/// triangle's fragment is strictly nearer than the depth stored there; it
/// never moves a stored depth away; and where depth writes are allowed, the
/// depth stored afterwards is no farther than the fragment.
pub proof fn law_depth_test(s: State, a: Vertex, b: Vertex, c: Vertex, i: int)
    requires
        s.wf(),
        0 <= i < PIXELS,
        survives_clip(a.position),
        survives_clip(b.position),
        survives_clip(c.position),
    ensures
        ({
            let t = s.viewport.screen_triangle(a, b, c);
            let after = s.draw(a, b, c);
            let fragment = t.fragment(s.viewport, pixel_x(i), pixel_y(i));
            &&& after.back[i] != s.back[i] ==> fragment.is_some() && fragment.unwrap().raw
                < s.depth[i].raw
            &&& after.depth[i] != s.depth[i] ==> fragment.is_some() && fragment.unwrap().raw
                < s.depth[i].raw && after.depth[i] == fragment.unwrap()
            &&& after.depth[i].raw <= s.depth[i].raw
            &&& s.depth_mask && fragment.is_some() ==> after.depth[i].raw <= fragment.unwrap().raw
        }),
{
    reveal(State::draw);
}

/// Depth writes are gated by the depth mask alone: with the mask off, no
/// drawing changes the depth buffer, whatever passes the depth test.
pub proof fn law_depth_mask_gates_writes(s: State, a: Vertex, b: Vertex, c: Vertex)
    requires
        !s.depth_mask,
    ensures
        s.draw(a, b, c).depth == s.depth,
        s.draw(a, b, c).depth_mask == s.depth_mask,
{
    reveal(State::draw);
    if survives_clip(a.position) && survives_clip(b.position) && survives_clip(c.position) {
        let t = s.viewport.screen_triangle(a, b, c);
        assert(t.drawn_depths(s.viewport, s.depth, false) =~= s.depth);
    }
}

/// With the depth mask off, drawing any number of primitives leaves the depth
/// buffer as it was.
pub proof fn law_depth_mask_gates_primitives(s: State, mode: PrimitiveMode, from: int)
    requires
        !s.depth_mask,
    ensures
        s.draw_primitives(mode, from).depth == s.depth,
        s.draw_primitives(mode, from).depth_mask == s.depth_mask,
    decreases s.verts.len() - from,
{
    if from < 0 || from + mode.vertices() > s.verts.len() {
    } else {
        let v = s.verts;
        let first = s.draw(v[from], v[from + 1], v[from + 2]);
        law_depth_mask_gates_writes(s, v[from], v[from + 1], v[from + 2]);
        lemma_draw_frame(s, v[from], v[from + 1], v[from + 2]);
        let whole = match mode {
            PrimitiveMode::Triangles => first,
            PrimitiveMode::Quads => first.draw(v[from + 2], v[from + 3], v[from]),
        };
        law_depth_mask_gates_writes(first, v[from + 2], v[from + 3], v[from]);
        lemma_draw_frame(first, v[from + 2], v[from + 3], v[from]);
        law_depth_mask_gates_primitives(whole, mode, from + mode.vertices());
    }
}

/// A viewport without width or without height lets no fragment through.
pub proof fn law_empty_viewport_emits_nothing(s: State, a: Vertex, b: Vertex, c: Vertex)
    requires
        s.viewport.width == 0 || s.viewport.height == 0,
    ensures
        s.draw(a, b, c) == s,
        forall|t: ScreenTriangle, x: int, y: int|
            (#[trigger] t.fragment(s.viewport, x, y)).is_none(),
{
    reveal(State::draw);
    assert forall|t: ScreenTriangle, x: int, y: int|
        (#[trigger] t.fragment(s.viewport, x, y)).is_none() by {
        assert(!t.in_box(s.viewport, x, y));
    }
    if survives_clip(a.position) && survives_clip(b.position) && survives_clip(c.position) {
        let t = s.viewport.screen_triangle(a, b, c);
        lemma_no_fragment_no_change(t, s.viewport, s.back, s.depth, s.depth_mask);
    }
}

/// A triangle without area emits no fragment, and neither does one whose
/// corners turn clockwise.
pub proof fn law_degenerate_triangle_emits_nothing(
    t: ScreenTriangle,
    vp: Viewport,
    back: Seq<u32>,
    depth: Seq<Scalar>,
    mask: bool,
)
    requires
        t.area() <= 0,
    ensures
        forall|x: int, y: int| (#[trigger] t.fragment(vp, x, y)).is_none(),
        t.drawn_colors(vp, back, depth) == back,
        t.drawn_depths(vp, depth, mask) == depth,
{
    lemma_no_fragment_no_change(t, vp, back, depth, mask);
}

/// Whether the bounding box of the triangle's corners, in whole pixels, lies
/// entirely off the surface: it ends left of the first column or below the
/// first row, or begins right of the last column or above the last row.
pub open spec fn box_off_surface(t: ScreenTriangle) -> bool {
    ||| (max(max(t.x0 as int, t.x1 as int), t.x2 as int) + 255) / 256 < 0
    ||| min(min(t.x0 as int, t.x1 as int), t.x2 as int) / 256 > 639
    ||| (max(max(t.y0 as int, t.y1 as int), t.y2 as int) + 255) / 256 < 0
    ||| min(min(t.y0 as int, t.y1 as int), t.y2 as int) / 256 > 479
}

/// A triangle whose bounding box lies entirely off the surface has no pixel
/// in its box, so no pixel is tested and none is written.
pub proof fn law_box_off_surface_emits_nothing(
    t: ScreenTriangle,
    vp: Viewport,
    back: Seq<u32>,
    depth: Seq<Scalar>,
    mask: bool,
)
    requires
        box_off_surface(t),
    ensures
        forall|x: int, y: int| !t.in_box(vp, x, y),
        t.drawn_colors(vp, back, depth) == back,
        t.drawn_depths(vp, depth, mask) == depth,
{
    lemma_no_fragment_no_change(t, vp, back, depth, mask);
}

/// Loading the identity twice is loading it once.
pub proof fn law_load_identity_idempotent(s: State, fuel: nat)
    ensures
        s.execute(Command::LoadIdentity, fuel).state.execute(Command::LoadIdentity, fuel)
            == s.execute(Command::LoadIdentity, fuel),
{
}


} // verus!
